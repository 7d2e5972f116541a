//! Binding generator for the Khronos Vulkan XML registry.
//!
//! The generator is a pipeline of three stages. The parser reads the registry document into a
//! tree that mirrors it. The linker turns the tree into an indexed registry, in which types,
//! commands and features refer to one another by handle. The emitter writes the indexed
//! registry out as the source text of the bindings.

pub mod attribs;
pub mod cmd;
pub mod emit;
pub mod error;
pub mod events;
pub mod names;
pub mod parse;
pub mod repr;
pub mod text;
pub mod trans;

pub use crate::cmd::Settings;

use vstd::prelude::*;
use crate::emit::SourceFile;
use crate::emit::SourceFileView;
use crate::emit::spec_emitted;
use crate::error::Error;
use crate::error::ErrorView;
use crate::parse::document::spec_from_xml;
use crate::repr::Vulkan;

verus! {

/// Whether `r` is what a run on the document gives: the error of the parser or the linker,
/// or what emitting the indexed registry gives.
pub open spec fn spec_ran(document: Seq<u8>, r: Result<Seq<SourceFileView>, ErrorView>) -> bool {
    match spec_from_xml(document) {
        Err(e) => r == Err::<Seq<SourceFileView>, ErrorView>(e),
        Ok(v) => spec_emitted(v, r),
    }
}

/// Runs the pipeline on a registry document: parse, link, emit. The modules of the bindings
/// are handed back as text.
pub fn run(settings: &Settings, document: &[u8]) -> (r: Result<Vec<SourceFile>, Error>)
    ensures
        spec_ran(
            document@,
            match r {
                Ok(files) => Ok(files.deep_view()),
                Err(e) => Err(e.deep_view()),
            },
        ),
{
    match Vulkan::from_xml(document) {
        Ok(v) => v.emit(&settings.emit),
        Err(e) => Err(e),
    }
}

} // verus!
