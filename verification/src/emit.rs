//! The emitter: from the indexed registry to the source text of the bindings.
//!
//! The text of every module is built first and checked for its syntax second. A root module
//! declares and re-exports the others; each of the others is made only if the registry holds
//! something for it.

pub mod commands;
pub mod enums;
pub mod ident;
pub mod result;
pub mod structs;
pub mod types;

use vstd::prelude::*;
use vstd::string::*;
use crate::emit::commands::spec_commands;
use crate::emit::enums::spec_enums;
use crate::emit::ident::spec_ident;
use crate::emit::result::spec_result;
use crate::emit::structs::spec_declaration;
use crate::emit::structs::spec_field;
use crate::emit::structs::spec_field_default;
use crate::emit::structs::spec_field_defaults;
use crate::emit::structs::spec_fields;
use crate::emit::structs::spec_keyword;
use crate::emit::structs::spec_members_of;
use crate::emit::structs::spec_record;
use crate::emit::structs::spec_structs;
use crate::emit::structs::spec_unions;
use crate::emit::types::spec_base_name;
use crate::emit::types::spec_gate_any;
use crate::error::EmitError;
use crate::error::EmitErrorView;
use crate::error::Error;
use crate::error::ErrorView;
use crate::names::spec_type_name;
use crate::names::type_output_name;
use crate::repr::MemberView;
use crate::repr::StructType;
use crate::repr::TypeView;
use crate::repr::Vulkan;
use crate::repr::VulkanView;
use crate::text::has_prefix;

verus! {

/// How the bindings are emitted.
#[derive(Debug)]
pub struct EmitSettings {
    /// The directory that the modules are written to.
    pub output_dir: Option<String>,
}

impl EmitSettings {
    /// The settings of a run without options.
    pub fn new() -> (r: EmitSettings)
        ensures
            r.output_dir is None,
    {
        EmitSettings { output_dir: None }
    }
}

impl Default for EmitSettings {
    fn default() -> (r: EmitSettings)
        ensures
            r.output_dir is None,
    {
        EmitSettings::new()
    }
}

/// One module of the bindings: its name and its source text.
#[derive(Debug)]
pub struct SourceFile {
    pub name: String,
    pub text: String,
}

/// `SourceFile` with its strings as character sequences.
pub ghost struct SourceFileView {
    pub name: Seq<char>,
    pub text: Seq<char>,
}

impl DeepView for SourceFile {
    type V = SourceFileView;

    open spec fn deep_view(&self) -> SourceFileView {
        SourceFileView { name: self.name@, text: self.text@ }
    }
}

/// Whether a text is well-formed source: whether the syntax check accepts it as a file.
pub uninterp spec fn parses(text: Seq<char>) -> bool;

/// `syn::parse_file`: succeeds on the text of a well-formed source file, and fails with the
/// first syntax error on any other text.
#[verifier::external_body]
fn check_syntax(text: &str) -> (r: Result<(), syn::Error>)
    ensures
        r is Ok <==> parses(text@),
{
    syn::parse_file(text).map(|_| ())
}

/// Whether the registry has a module of enumerations: it holds an enumeration or a set of
/// flags.
pub open spec fn spec_has_enums(v: VulkanView) -> bool {
    v.types.enum_types.len() > 0 || v.types.bitmask_types.len() > 0
}

/// Whether the registry has a module for its result type.
pub open spec fn spec_has_result(v: VulkanView) -> bool {
    v.types.result_type is Some && spec_base_name(v, v.types.result_type->0) is Some
}

/// The text after the lines of the root module for one submodule, if it is made.
pub open spec fn spec_submodule(acc: Seq<char>, present: bool, name: Seq<char>) -> Seq<char> {
    if present {
        acc + "mod "@ + name + ";\npub use "@ + name + "::*;\n"@
    } else {
        acc
    }
}

/// The root module: for each submodule that is made, in the order `commands`, `enums`,
/// `result`, `structs`, `unions`, its declaration and its re-export.
pub open spec fn spec_root(v: VulkanView) -> Seq<char> {
    let a = spec_submodule(Seq::empty(), v.commands.len() > 0, "commands"@);
    let b = spec_submodule(a, spec_has_enums(v), "enums"@);
    let c = spec_submodule(b, spec_has_result(v), "result"@);
    let d = spec_submodule(c, v.types.struct_types.len() > 0, "structs"@);
    spec_submodule(d, v.types.union_types.len() > 0, "unions"@)
}

/// The files after one module, if it is made.
pub open spec fn spec_module(
    files: Seq<SourceFileView>,
    present: bool,
    name: Seq<char>,
    text: Result<Seq<char>, EmitErrorView>,
) -> Result<Seq<SourceFileView>, EmitErrorView> {
    if !present {
        Ok(files)
    } else {
        match text {
            Ok(text) => Ok(files.push(SourceFileView { name, text })),
            Err(e) => Err(e),
        }
    }
}

/// The text of the result module as a text or an error.
pub open spec fn spec_result_module(v: VulkanView) -> Result<Seq<char>, EmitErrorView> {
    match spec_result(v) {
        Ok(Some(text)) => Ok(text),
        Ok(None) => Ok(Seq::empty()),
        Err(e) => Err(e),
    }
}

/// The modules of the bindings: the root module first, then the submodules that are made, in
/// the order of the root module. A registry that has nothing for any submodule has no module
/// at all.
pub open spec fn spec_render(v: VulkanView) -> Result<Seq<SourceFileView>, EmitErrorView> {
    let root = spec_root(v);
    let files = if root.len() == 0 {
        Seq::empty()
    } else {
        seq![SourceFileView { name: "mod"@, text: root }]
    };
    match spec_module(files, v.commands.len() > 0, "commands"@, spec_commands(v)) {
        Err(e) => Err(e),
        Ok(files) => match spec_module(files, spec_has_enums(v), "enums"@, spec_enums(v)) {
            Err(e) => Err(e),
            Ok(files) => match spec_module(
                files,
                spec_has_result(v),
                "result"@,
                spec_result_module(v),
            ) {
                Err(e) => Err(e),
                Ok(files) => match spec_module(
                    files,
                    v.types.struct_types.len() > 0,
                    "structs"@,
                    spec_structs(v),
                ) {
                    Err(e) => Err(e),
                    Ok(files) => spec_module(
                        files,
                        v.types.union_types.len() > 0,
                        "unions"@,
                        spec_unions(v),
                    ),
                },
            },
        },
    }
}

/// Whether the text of every file is well-formed source.
pub open spec fn spec_all_parse(files: Seq<SourceFileView>) -> bool {
    forall|i: int| 0 <= i < files.len() ==> parses((#[trigger] files[i]).text)
}

/// Whether `r` is what emitting the registry `v` gives: the modules, if each is well-formed
/// source; the error of the module that cannot be built; a format error if a module is built
/// but is not well-formed source.
pub open spec fn spec_emitted(v: VulkanView, r: Result<Seq<SourceFileView>, ErrorView>) -> bool {
    match spec_render(v) {
        Err(e) => r == Err::<Seq<SourceFileView>, ErrorView>(ErrorView::Emit(e)),
        Ok(files) => if spec_all_parse(files) {
            r == Ok::<Seq<SourceFileView>, ErrorView>(files)
        } else {
            r matches Err(ErrorView::Emit(EmitErrorView::Format(_)))
        },
    }
}

/// Emitting is determined by the registry: two runs on one registry give the same modules,
/// byte for byte, or fail alike.
pub proof fn lemma_emit_deterministic(
    v: VulkanView,
    a: Result<Seq<SourceFileView>, ErrorView>,
    b: Result<Seq<SourceFileView>, ErrorView>,
)
    requires
        spec_emitted(v, a),
        spec_emitted(v, b),
    ensures
        a is Ok <==> b is Ok,
        a is Ok ==> a == b,
        a is Err ==> (a->Err_0 matches ErrorView::Emit(EmitErrorView::Format(_))) == (
        b->Err_0 matches ErrorView::Emit(EmitErrorView::Format(_))),
        a is Err && !(a->Err_0 matches ErrorView::Emit(EmitErrorView::Format(_))) ==> a == b,
{
}

/// The declarations of fields only add to the text.
pub proof fn lemma_fields_extend(
    acc: Seq<char>,
    v: VulkanView,
    owner: TypeView,
    members: Seq<MemberView>,
    i: int,
)
    requires
        0 <= i,
        spec_fields(acc, v, owner, members, i) is Ok,
    ensures
        has_prefix(spec_fields(acc, v, owner, members, i)->Ok_0, acc),
    decreases members.len() - i,
{
    let r = spec_fields(acc, v, owner, members, i)->Ok_0;
    if i < members.len() {
        let next = spec_field(acc, v, owner, members[i])->Ok_0;
        lemma_fields_extend(next, v, owner, members, i + 1);
        assert(r.subrange(0, acc.len() as int) =~= r.subrange(0, next.len() as int).subrange(
            0,
            acc.len() as int,
        ));
        assert(next.subrange(0, acc.len() as int) =~= acc);
    } else {
        assert(r.subrange(0, acc.len() as int) =~= acc);
    }
}

/// The default values of fields only add to the text.
pub proof fn lemma_defaults_extend(
    acc: Seq<char>,
    v: VulkanView,
    owner: TypeView,
    members: Seq<MemberView>,
    i: int,
    end: int,
)
    requires
        0 <= i,
        spec_field_defaults(acc, v, owner, members, i, end) is Ok,
    ensures
        has_prefix(spec_field_defaults(acc, v, owner, members, i, end)->Ok_0, acc),
    decreases end - i,
{
    let r = spec_field_defaults(acc, v, owner, members, i, end)->Ok_0;
    if i < end && end <= members.len() {
        let next = spec_field_default(acc, v, owner, members[i])->Ok_0;
        lemma_defaults_extend(next, v, owner, members, i + 1, end);
        assert(r.subrange(0, acc.len() as int) =~= r.subrange(0, next.len() as int).subrange(
            0,
            acc.len() as int,
        ));
        assert(next.subrange(0, acc.len() as int) =~= acc);
    } else {
        assert(r.subrange(0, acc.len() as int) =~= acc);
    }
}

/// The record of a type that one feature introduces is declared behind exactly one `cfg`
/// attribute, which names the feature: what is emitted for it begins with that attribute,
/// and what follows is the declaration itself, from `#[repr(C)]` on. The record of a type
/// without a feature begins with `#[repr(C)]`.
pub proof fn lemma_gate_coverage(acc: Seq<char>, v: VulkanView, t: TypeView)
    requires
        spec_members_of(t.body) is Some,
        spec_record(acc, v, t) is Ok,
        t.head.later_features.len() == 0,
    ensures
        match t.head.feature {
            Some(f) => f.live(v.features.len()) ==> has_prefix(
                spec_record(acc, v, t)->Ok_0,
                acc + "#[cfg(feature = \""@ + v.features[f.0 - 1].header.output_name + "\")]\n"@
                    + "#[repr(C)]\npub "@ + spec_keyword(t.body) + " "@ + spec_ident(
                    t.head.output_name,
                )->0,
            ),
            None => has_prefix(
                spec_record(acc, v, t)->Ok_0,
                acc + "#[repr(C)]\npub "@ + spec_keyword(t.body) + " "@ + spec_ident(
                    t.head.output_name,
                )->0,
            ),
        },
{
    let members = spec_members_of(t.body)->0;
    let name = spec_ident(t.head.output_name)->0;
    let gate = spec_gate_any(v, t.head.feature, t.head.later_features, Seq::empty());
    let opened = acc + gate + "#[repr(C)]\npub "@ + spec_keyword(t.body) + " "@ + name + " {\n"@;
    let fields = spec_fields(opened, v, t, members, 0)->Ok_0;
    let declared = spec_declaration(acc + gate, v, t, name, members)->Ok_0;
    let start = declared + gate + "impl Default for "@ + name
        + " {\n    fn default() -> Self {\n        Self {\n"@;
    let defaults = spec_field_defaults(
        start,
        v,
        t,
        members,
        0,
        crate::emit::structs::spec_defaulted(t.body, members),
    )->Ok_0;
    let r = spec_record(acc, v, t)->Ok_0;
    lemma_fields_extend(opened, v, t, members, 0);
    lemma_defaults_extend(
        start,
        v,
        t,
        members,
        0,
        crate::emit::structs::spec_defaulted(t.body, members),
    );
    let head = acc + gate + "#[repr(C)]\npub "@ + spec_keyword(t.body) + " "@ + name;
    assert(opened.subrange(0, head.len() as int) =~= head);
    assert(fields.subrange(0, head.len() as int) =~= fields.subrange(
        0,
        opened.len() as int,
    ).subrange(0, head.len() as int));
    assert(declared.subrange(0, head.len() as int) =~= fields.subrange(0, head.len() as int));
    assert(start.subrange(0, head.len() as int) =~= declared.subrange(0, head.len() as int));
    assert(defaults.subrange(0, head.len() as int) =~= defaults.subrange(
        0,
        start.len() as int,
    ).subrange(0, head.len() as int));
    assert(r.subrange(0, head.len() as int) =~= defaults.subrange(0, head.len() as int));
    match t.head.feature {
        Some(f) => {
            if f.live(v.features.len()) {
                assert(Seq::<char>::empty() + "#[cfg(feature = \""@ =~= "#[cfg(feature = \""@);
                assert(head =~= acc + "#[cfg(feature = \""@ + v.features[f.0
                    - 1].header.output_name + "\")]\n"@ + "#[repr(C)]\npub "@ + spec_keyword(
                    t.body,
                ) + " "@ + name);
            }
        },
        None => {
            assert(head =~= acc + "#[repr(C)]\npub "@ + spec_keyword(t.body) + " "@ + name);
        },
    }
}

impl Vulkan {
    /// Adds the lines of the root module for one submodule, if it is made.
    fn submodule(out: &mut String, present: bool, name: &str)
        ensures
            final(out)@ == spec_submodule(old(out)@, present, name@),
    {
        if present {
            out.append("mod ");
            out.append(name);
            out.append(";\npub use ");
            out.append(name);
            out.append("::*;\n");
        }
    }

    /// Whether the registry has a module for its result type.
    fn has_result(&self) -> (r: bool)
        ensures
            r == spec_has_result(self.deep_view()),
    {
        match self.types.result_type {
            Some(h) => self.base_name(h).is_some(),
            None => false,
        }
    }

    /// Writes the root module.
    pub fn root_text(&self) -> (r: String)
        ensures
            r@ == spec_root(self.deep_view()),
    {
        let mut out = String::new();
        Vulkan::submodule(&mut out, self.has_commands(), "commands");
        Vulkan::submodule(&mut out, self.has_enum_types() || self.has_bitmask_types(), "enums");
        Vulkan::submodule(&mut out, self.has_result(), "result");
        Vulkan::submodule(&mut out, self.has_structs(), "structs");
        Vulkan::submodule(&mut out, self.has_unions(), "unions");
        out
    }

    /// Adds one module to the files.
    fn add_module(files: &mut Vec<SourceFile>, name: &str, text: String)
        ensures
            final(files).deep_view() == old(files).deep_view().push(
                SourceFileView { name: name@, text: text@ },
            ),
    {
        let file = SourceFile { name: String::from_str(name), text };
        files.push(file);
        proof {
            assert(files.deep_view() =~= old(files).deep_view().push(file.deep_view()));
        }
    }

    /// Builds the text of every module of the bindings.
    pub fn render(&self) -> (r: Result<Vec<SourceFile>, EmitError>)
        ensures
            match spec_render(self.deep_view()) {
                Ok(files) => r is Ok && r->Ok_0.deep_view() == files,
                Err(e) => r is Err && r->Err_0.deep_view() == e,
            },
    {
        let mut files: Vec<SourceFile> = Vec::new();
        proof {
            assert(files.deep_view() =~= Seq::empty());
        }
        let root = self.root_text();
        if root.as_str().unicode_len() > 0 {
            Vulkan::add_module(&mut files, "mod", root);
            proof {
                assert(files.deep_view() =~= seq![
                    SourceFileView { name: "mod"@, text: spec_root(self.deep_view()) },
                ]);
            }
        }
        if self.has_commands() {
            let text = self.commands_text()?;
            Vulkan::add_module(&mut files, "commands", text);
        }
        if self.has_enum_types() || self.has_bitmask_types() {
            let text = self.enums_text()?;
            Vulkan::add_module(&mut files, "enums", text);
        }
        if self.has_result() {
            let text = match self.result_text()? {
                Some(text) => text,
                None => String::new(),
            };
            Vulkan::add_module(&mut files, "result", text);
        }
        if self.has_structs() {
            let text = self.structs_text()?;
            Vulkan::add_module(&mut files, "structs", text);
        }
        if self.has_unions() {
            let text = self.unions_text()?;
            Vulkan::add_module(&mut files, "unions", text);
        }
        Ok(files)
    }

    /// What emitting comes to once the modules are built and their syntax is checked: the
    /// modules, or the failure of the check as a format error.
    pub fn finish(files: Vec<SourceFile>, checked: Result<(), syn::Error>) -> (r: Result<
        Vec<SourceFile>,
        Error,
    >)
        ensures
            match checked {
                Ok(_) => r == Ok::<Vec<SourceFile>, Error>(files),
                Err(e) => r == Err::<Vec<SourceFile>, Error>(Error::Emit(EmitError::Format(e))),
            },
    {
        match checked {
            Ok(_) => Ok(files),
            Err(e) => Err(Error::Emit(EmitError::Format(e))),
        }
    }

    /// Checks the syntax of every module.
    fn check(files: &Vec<SourceFile>) -> (r: Result<(), syn::Error>)
        ensures
            r is Ok <==> spec_all_parse(files.deep_view()),
    {
        let mut i: usize = 0;
        while i < files.len()
            invariant
                i <= files.len(),
                forall|k: int| 0 <= k < i ==> parses((#[trigger] files.deep_view()[k]).text),
            decreases files.len() - i,
        {
            proof {
                assert(files.deep_view()[i as int] == files@[i as int].deep_view());
            }
            match check_syntax(files[i].text.as_str()) {
                Ok(_) => {},
                Err(e) => {
                    return Err(e);
                },
            }
            i += 1;
        }
        Ok(())
    }

    /// Emits the bindings: builds the modules and checks that each is well-formed source.
    pub fn emit(self, settings: &EmitSettings) -> (r: Result<Vec<SourceFile>, Error>)
        ensures
            spec_emitted(
                self.deep_view(),
                match r {
                    Ok(files) => Ok(files.deep_view()),
                    Err(e) => Err(e.deep_view()),
                },
            ),
    {
        let files = match self.render() {
            Ok(files) => files,
            Err(e) => {
                return Err(Error::Emit(e));
            },
        };
        let checked = Vulkan::check(&files);
        Vulkan::finish(files, checked)
    }
}

impl StructType {
    /// The name of the structure in the bindings: its standard name without a leading `Vk`.
    pub fn output_name(&self) -> (r: String)
        ensures
            r@ == spec_type_name(self.common.standard_name@),
    {
        type_output_name(self.common.standard_name.as_str())
    }
}

} // verus!
