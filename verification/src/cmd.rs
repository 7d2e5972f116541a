//! The command line.
//!
//! The program takes `--path <dir>`, `--url <url>`, `--update` and `--out <dir>`.

use vstd::prelude::*;
use vstd::string::*;
use crate::emit::EmitSettings;
use crate::error::CmdError;
use crate::error::CmdErrorView;
use crate::parse::document::ParseSettings;
use crate::text::str_eq;

verus! {

/// Everything that a run can be told.
#[derive(Debug)]
pub struct Settings {
    pub parse: ParseSettings,
    pub emit: EmitSettings,
}

/// `Settings` with its strings as character sequences.
pub ghost struct SettingsView {
    pub path: Option<Seq<char>>,
    pub url: Option<Seq<char>>,
    pub update: bool,
    pub output_dir: Option<Seq<char>>,
}

impl DeepView for Settings {
    type V = SettingsView;

    open spec fn deep_view(&self) -> SettingsView {
        SettingsView {
            path: self.parse.path.deep_view(),
            url: self.parse.url.deep_view(),
            update: self.parse.update,
            output_dir: self.emit.output_dir.deep_view(),
        }
    }
}

impl SettingsView {
    /// The settings of a run without options.
    pub open spec fn empty() -> SettingsView {
        SettingsView { path: None, url: None, update: false, output_dir: None }
    }
}

/// The directory that the registry document is looked for in when no option names one.
pub open spec fn spec_default_path() -> Seq<char> {
    "temp/registry/vulkan"@
}

/// The address that the registry document is fetched from when no option names one.
pub open spec fn spec_default_url() -> Seq<char> {
    "https://raw.githubusercontent.com/KhronosGroup/Vulkan-Docs/main/xml/vk.xml"@
}

/// The value of an option that takes one: the argument after it. An option at the end of
/// the line lacks its value.
pub open spec fn spec_value(args: Seq<Seq<char>>, i: int) -> Result<Seq<char>, CmdErrorView> {
    if 0 <= i && i + 1 < args.len() {
        Ok(args[i + 1])
    } else {
        Err(CmdErrorView::ReqCmdArg(args[i]))
    }
}

/// The settings after the arguments from `i` on. An option that is given twice counts as
/// given last.
pub open spec fn spec_options(args: Seq<Seq<char>>, i: int, s: SettingsView) -> Result<
    SettingsView,
    CmdErrorView,
>
    decreases args.len() - i,
{
    if i < 0 || i >= args.len() {
        Ok(s)
    } else if args[i] == "--path"@ {
        match spec_value(args, i) {
            Ok(v) => spec_options(args, i + 2, SettingsView { path: Some(v), ..s }),
            Err(e) => Err(e),
        }
    } else if args[i] == "--url"@ {
        match spec_value(args, i) {
            Ok(v) => spec_options(args, i + 2, SettingsView { url: Some(v), ..s }),
            Err(e) => Err(e),
        }
    } else if args[i] == "--out"@ {
        match spec_value(args, i) {
            Ok(v) => spec_options(args, i + 2, SettingsView { output_dir: Some(v), ..s }),
            Err(e) => Err(e),
        }
    } else if args[i] == "--update"@ {
        spec_options(args, i + 1, SettingsView { update: true, ..s })
    } else {
        Err(CmdErrorView::BadCmdArg(args[i]))
    }
}

/// The settings that a command line spells. Its first argument is the place of the program.
pub open spec fn spec_cmd_line(args: Seq<Seq<char>>) -> Result<SettingsView, CmdErrorView> {
    spec_options(args, 1, SettingsView::empty())
}

impl Default for Settings {
    fn default() -> (r: Settings)
        ensures
            r.deep_view() == SettingsView::empty(),
    {
        Settings::new()
    }
}

impl Settings {
    /// The settings of a run without options.
    pub fn new() -> (r: Settings)
        ensures
            r.deep_view() == SettingsView::empty(),
    {
        Settings { parse: ParseSettings::new(), emit: EmitSettings::new() }
    }

    /// The directory that the registry document is looked for in.
    pub fn path(&self) -> (r: String)
        ensures
            r@ == match self.deep_view().path {
                Some(p) => p,
                None => spec_default_path(),
            },
    {
        match &self.parse.path {
            Some(p) => p.clone(),
            None => String::from_str("temp/registry/vulkan"),
        }
    }

    /// The address that the registry document is fetched from.
    pub fn url(&self) -> (r: String)
        ensures
            r@ == match self.deep_view().url {
                Some(u) => u,
                None => spec_default_url(),
            },
    {
        match &self.parse.url {
            Some(u) => u.clone(),
            None => String::from_str(
                "https://raw.githubusercontent.com/KhronosGroup/Vulkan-Docs/main/xml/vk.xml",
            ),
        }
    }
}

/// Reads the value of the option at `i`.
fn value_of(args: &Vec<String>, i: usize) -> (r: Result<String, CmdError>)
    requires
        i < args.len(),
    ensures
        match spec_value(args.deep_view(), i as int) {
            Ok(v) => r is Ok && r->Ok_0@ == v,
            Err(e) => r is Err && r->Err_0.deep_view() == e,
        },
{
    if i + 1 < args.len() {
        Ok(args[i + 1].clone())
    } else {
        Err(CmdError::ReqCmdArg(args[i].clone()))
    }
}

/// Reads the settings from the command line.
pub fn process_cmd_line(args: &Vec<String>) -> (r: Result<Settings, CmdError>)
    ensures
        match spec_cmd_line(args.deep_view()) {
            Ok(s) => r is Ok && r->Ok_0.deep_view() == s,
            Err(e) => r is Err && r->Err_0.deep_view() == e,
        },
{
    let mut settings = Settings::new();
    let mut i: usize = 1;
    let ghost views = args.deep_view();
    while i < args.len()
        invariant
            views == args.deep_view(),
            1 <= i,
            spec_options(views, i as int, settings.deep_view()) == spec_options(
                views,
                1,
                SettingsView::empty(),
            ),
        decreases args.len() - i,
    {
        let arg = args[i].as_str();
        if str_eq(arg, "--path") {
            settings.parse.path = Some(value_of(args, i)?);
            i += 2;
        } else if str_eq(arg, "--url") {
            settings.parse.url = Some(value_of(args, i)?);
            i += 2;
        } else if str_eq(arg, "--out") {
            settings.emit.output_dir = Some(value_of(args, i)?);
            i += 2;
        } else if str_eq(arg, "--update") {
            settings.parse.update = true;
            i += 1;
        } else {
            return Err(CmdError::BadCmdArg(args[i].clone()));
        }
    }
    Ok(settings)
}

} // verus!
