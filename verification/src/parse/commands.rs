//! The `commands` element: prototypes, parameters and aliases.

use vstd::prelude::*;
use vstd::string::*;
use crate::attribs::Attribs;
use crate::attribs::AttribsView;
use crate::attribs::attr_get;
use crate::attribs::spec_req;
use crate::attribs::spec_take;
use crate::attribs::spec_take_list;
use crate::attribs::spec_try_get;
use crate::attribs::spec_try_get_list;
use crate::error::ParseError;
use crate::error::ParseErrorView;
use crate::parse::generic::GenericItem;
use crate::parse::generic::GenericItemKind;
use crate::parse::generic::GenericItemView;
use crate::parse::protocol::GenericParse;
use crate::parse::protocol::Parse;
use crate::parse::protocol::Reader;
use crate::parse::protocol::ReaderView;
use crate::parse::protocol::add_item;
use crate::parse::protocol::map_read;
use crate::parse::protocol::no_items;
use crate::parse::registry::Comment;
use crate::parse::registry::CommentView;
use crate::parse::values::ExternSync;
use crate::parse::values::ExternSyncView;
use crate::parse::values::Len;
use crate::parse::values::LenView;
use crate::text::str_eq;

verus! {

/// The `commands` element: the list of commands.
pub struct Commands {
    pub items: Vec<CommandsItem>,
    pub comment: Option<String>,
}

/// `Commands` with its strings as character sequences.
pub ghost struct CommandsView {
    pub items: Seq<CommandsItemView>,
    pub comment: Option<Seq<char>>,
}

impl DeepView for Commands {
    type V = CommandsView;

    open spec fn deep_view(&self) -> CommandsView {
        CommandsView {
            items: self.items.deep_view(),
            comment: self.comment.deep_view(),
        }
    }
}

impl GenericParse for Commands {
    open spec fn spec_name() -> Seq<char> {
        "commands"@
    }

    open spec fn spec_empty() -> CommandsView {
        CommandsView {
            items: Seq::empty(),
            comment: None,
        }
    }

    open spec fn spec_attribs(
        acc: CommandsView,
        element: Seq<char>,
        attribs: AttribsView,
    ) -> Result<
        (CommandsView, AttribsView),
        ParseErrorView,
    > {
        let (comment, a) = spec_take(attribs, "comment"@);
        Ok((CommandsView { comment, ..acc }, a))
    }

    open spec fn spec_child(
        acc: CommandsView,
        reader: ReaderView,
        element: Seq<char>,
        attribs: AttribsView,
    ) -> (Result<CommandsView, ParseErrorView>, ReaderView) {
        map_read(
            CommandsItem::spec_read(reader, element, attribs),
            |item: CommandsItemView| CommandsView { items: acc.items.push(item), ..acc },
        )
    }

    open spec fn spec_text(
        acc: CommandsView,
        text: Seq<char>,
    ) -> Result<CommandsView, ParseErrorView> {
        Err(ParseErrorView::BadContent(Self::spec_name(), text))
    }

    fn name() -> &'static str {
        "commands"
    }

    fn empty() -> Commands {
        Commands {
            items: no_items(),
            comment: None,
        }
    }

    fn parse_attribs(&mut self, element: &str, attribs: &mut Attribs) -> (r: Result<
        (),
        ParseError,
    >) {
        self.comment = attribs.remove("comment");
        Ok(())
    }

    fn parse_child(
        &mut self,
        reader: &mut Reader,
        element: String,
        attribs: &mut Attribs,
    ) -> (r: Result<(), ParseError>) {
        let item = CommandsItem::parse(reader, element, attribs)?;
        add_item(&mut self.items, item);
        Ok(())
    }

    fn parse_text(&mut self, text: String) -> (r: Result<(), ParseError>) {
        Err(ParseError::BadContent(String::from_str("commands"), text))
    }
}

/// A child of the `commands` element.
pub enum CommandsItem {
    Comment(Comment),
    Command(Command),
}

/// `CommandsItem` with its strings as character sequences.
pub ghost enum CommandsItemView {
    Comment(CommentView),
    Command(CommandView),
}

impl DeepView for CommandsItem {
    type V = CommandsItemView;

    open spec fn deep_view(&self) -> CommandsItemView {
        match *self {
            CommandsItem::Comment(x) => CommandsItemView::Comment(x.deep_view()),
            CommandsItem::Command(x) => CommandsItemView::Command(x.deep_view()),
        }
    }
}

impl Parse for CommandsItem {
    open spec fn spec_read(reader: ReaderView, element: Seq<char>, attribs: AttribsView) -> (
        Result<CommandsItemView, ParseErrorView>,
        ReaderView,
    ) {
        if element == "comment"@ {
            map_read(
                Comment::spec_read(reader, element, attribs),
                |x: CommentView| CommandsItemView::Comment(x),
            )
        } else if element == "command"@ {
            map_read(
                Command::spec_read(reader, element, attribs),
                |x: CommandView| CommandsItemView::Command(x),
            )
        } else {
            (Err(ParseErrorView::BadChild("commands"@, element)), reader)
        }
    }

    fn parse(reader: &mut Reader, element: String, attribs: &mut Attribs) -> (r: Result<
        CommandsItem,
        ParseError,
    >) {
        if str_eq(element.as_str(), "comment") {
            Ok(CommandsItem::Comment(Comment::parse(reader, element, attribs)?))
        } else if str_eq(element.as_str(), "command") {
            Ok(CommandsItem::Command(Command::parse(reader, element, attribs)?))
        } else {
            Err(ParseError::BadChild(String::from_str("commands"), element))
        }
    }
}

/// A command: defined by a prototype, or another name for a command.
pub enum Command {
    Alias(AliasCommand),
    Defined(DefinedCommand),
}

/// `Command` with its strings as character sequences.
pub ghost enum CommandView {
    Alias(AliasCommandView),
    Defined(DefinedCommandView),
}

impl DeepView for Command {
    type V = CommandView;

    open spec fn deep_view(&self) -> CommandView {
        match *self {
            Command::Alias(x) => CommandView::Alias(x.deep_view()),
            Command::Defined(x) => CommandView::Defined(x.deep_view()),
        }
    }
}

impl Parse for Command {
    open spec fn spec_read(reader: ReaderView, element: Seq<char>, attribs: AttribsView) -> (
        Result<CommandView, ParseErrorView>,
        ReaderView,
    ) {
        if attr_get(attribs, "alias"@) is Some {
            map_read(
                AliasCommand::spec_read(reader, element, attribs),
                |x: AliasCommandView| CommandView::Alias(x),
            )
        } else {
            map_read(
                DefinedCommand::spec_read(reader, element, attribs),
                |x: DefinedCommandView| CommandView::Defined(x),
            )
        }
    }

    fn parse(reader: &mut Reader, element: String, attribs: &mut Attribs) -> (r: Result<
        Command,
        ParseError,
    >) {
        if attribs.contains_key("alias") {
            Ok(Command::Alias(AliasCommand::parse(reader, element, attribs)?))
        } else {
            Ok(Command::Defined(DefinedCommand::parse(reader, element, attribs)?))
        }
    }
}

/// A command with its prototype and parameters.
pub struct DefinedCommand {
    pub api: Option<String>,
    pub success_codes: Option<Vec<String>>,
    pub error_codes: Option<Vec<String>>,
    pub queues: Option<Vec<String>>,
    pub render_pass: Option<String>,
    pub video_coding: Option<String>,
    pub cmd_buffer_level: Option<Vec<String>>,
    pub tasks: Option<Vec<String>>,
    pub proto: CommandProto,
    pub items: Vec<CommandItem>,
    pub comment: Option<String>,
}

/// `DefinedCommand` with its strings as character sequences.
pub ghost struct DefinedCommandView {
    pub api: Option<Seq<char>>,
    pub success_codes: Option<Seq<Seq<char>>>,
    pub error_codes: Option<Seq<Seq<char>>>,
    pub queues: Option<Seq<Seq<char>>>,
    pub render_pass: Option<Seq<char>>,
    pub video_coding: Option<Seq<char>>,
    pub cmd_buffer_level: Option<Seq<Seq<char>>>,
    pub tasks: Option<Seq<Seq<char>>>,
    pub proto: CommandProtoView,
    pub items: Seq<CommandItemView>,
    pub comment: Option<Seq<char>>,
}

impl DeepView for DefinedCommand {
    type V = DefinedCommandView;

    open spec fn deep_view(&self) -> DefinedCommandView {
        DefinedCommandView {
            api: self.api.deep_view(),
            success_codes: self.success_codes.deep_view(),
            error_codes: self.error_codes.deep_view(),
            queues: self.queues.deep_view(),
            render_pass: self.render_pass.deep_view(),
            video_coding: self.video_coding.deep_view(),
            cmd_buffer_level: self.cmd_buffer_level.deep_view(),
            tasks: self.tasks.deep_view(),
            proto: self.proto.deep_view(),
            items: self.items.deep_view(),
            comment: self.comment.deep_view(),
        }
    }
}

impl GenericParse for DefinedCommand {
    open spec fn spec_name() -> Seq<char> {
        "command"@
    }

    open spec fn spec_empty() -> DefinedCommandView {
        DefinedCommandView {
            api: None,
            success_codes: None,
            error_codes: None,
            queues: None,
            render_pass: None,
            video_coding: None,
            cmd_buffer_level: None,
            tasks: None,
            proto: CommandProto::spec_empty(),
            items: Seq::empty(),
            comment: None,
        }
    }

    open spec fn spec_attribs(
        acc: DefinedCommandView,
        element: Seq<char>,
        attribs: AttribsView,
    ) -> Result<
        (DefinedCommandView, AttribsView),
        ParseErrorView,
    > {
        let (api, a) = spec_take(attribs, "api"@);
        let (success_codes, a) = spec_take_list(a, "successcodes"@);
        let (error_codes, a) = spec_take_list(a, "errorcodes"@);
        let (queues, a) = spec_take_list(a, "queues"@);
        let (render_pass, a) = spec_take(a, "renderpass"@);
        let (video_coding, a) = spec_take(a, "videocoding"@);
        let (cmd_buffer_level, a) = spec_take_list(a, "cmdbufferlevel"@);
        let (tasks, a) = spec_take_list(a, "tasks"@);
        let (comment, a) = spec_take(a, "comment"@);
        Ok(
            (
                DefinedCommandView {
                    api,
                    success_codes,
                    error_codes,
                    queues,
                    render_pass,
                    video_coding,
                    cmd_buffer_level,
                    tasks,
                    comment,
                    ..acc
                },
                a,
            ),
        )
    }

    open spec fn spec_child(
        acc: DefinedCommandView,
        reader: ReaderView,
        element: Seq<char>,
        attribs: AttribsView,
    ) -> (Result<DefinedCommandView, ParseErrorView>, ReaderView) {
        if element == "proto"@ {
            map_read(
                CommandProto::spec_read(reader, element, attribs),
                |proto: CommandProtoView| DefinedCommandView { proto: proto, ..acc },
            )
        } else {
            map_read(
                CommandItem::spec_read(reader, element, attribs),
                |item: CommandItemView| DefinedCommandView { items: acc.items.push(item), ..acc },
            )
        }
    }

    open spec fn spec_text(
        acc: DefinedCommandView,
        text: Seq<char>,
    ) -> Result<DefinedCommandView, ParseErrorView> {
        Err(ParseErrorView::BadContent(Self::spec_name(), text))
    }

    fn name() -> &'static str {
        "command"
    }

    fn empty() -> DefinedCommand {
        DefinedCommand {
            api: None,
            success_codes: None,
            error_codes: None,
            queues: None,
            render_pass: None,
            video_coding: None,
            cmd_buffer_level: None,
            tasks: None,
            proto: CommandProto::empty(),
            items: no_items(),
            comment: None,
        }
    }

    fn parse_attribs(&mut self, element: &str, attribs: &mut Attribs) -> (r: Result<
        (),
        ParseError,
    >) {
        self.api = attribs.remove("api");
        self.success_codes = attribs.remove_list("successcodes");
        self.error_codes = attribs.remove_list("errorcodes");
        self.queues = attribs.remove_list("queues");
        self.render_pass = attribs.remove("renderpass");
        self.video_coding = attribs.remove("videocoding");
        self.cmd_buffer_level = attribs.remove_list("cmdbufferlevel");
        self.tasks = attribs.remove_list("tasks");
        self.comment = attribs.remove("comment");
        Ok(())
    }

    fn parse_child(
        &mut self,
        reader: &mut Reader,
        element: String,
        attribs: &mut Attribs,
    ) -> (r: Result<(), ParseError>) {
        if str_eq(element.as_str(), "proto") {
            self.proto = CommandProto::parse(reader, element, attribs)?;
        } else {
            let item = CommandItem::parse(reader, element, attribs)?;
            add_item(&mut self.items, item);
        }
        Ok(())
    }

    fn parse_text(&mut self, text: String) -> (r: Result<(), ParseError>) {
        Err(ParseError::BadContent(String::from_str("command"), text))
    }
}

/// The prototype of a command: its return type and name.
pub struct CommandProto {
    pub items: Vec<GenericItem>,
    pub comment: Option<String>,
}

/// `CommandProto` with its strings as character sequences.
pub ghost struct CommandProtoView {
    pub items: Seq<GenericItemView>,
    pub comment: Option<Seq<char>>,
}

impl DeepView for CommandProto {
    type V = CommandProtoView;

    open spec fn deep_view(&self) -> CommandProtoView {
        CommandProtoView {
            items: self.items.deep_view(),
            comment: self.comment.deep_view(),
        }
    }
}

impl GenericParse for CommandProto {
    open spec fn spec_name() -> Seq<char> {
        "proto"@
    }

    open spec fn spec_empty() -> CommandProtoView {
        CommandProtoView {
            items: Seq::empty(),
            comment: None,
        }
    }

    open spec fn spec_attribs(
        acc: CommandProtoView,
        element: Seq<char>,
        attribs: AttribsView,
    ) -> Result<
        (CommandProtoView, AttribsView),
        ParseErrorView,
    > {
        let (comment, a) = spec_take(attribs, "comment"@);
        Ok((CommandProtoView { comment, ..acc }, a))
    }

    open spec fn spec_child(
        acc: CommandProtoView,
        reader: ReaderView,
        element: Seq<char>,
        attribs: AttribsView,
    ) -> (Result<CommandProtoView, ParseErrorView>, ReaderView) {
        map_read(
            GenericItem::spec_read(reader, element, attribs),
            |item: GenericItemView|
                CommandProtoView { items: acc.items.push(item), ..acc },
        )
    }

    open spec fn spec_text(
        acc: CommandProtoView,
        text: Seq<char>,
    ) -> Result<CommandProtoView, ParseErrorView> {
        Ok(
            CommandProtoView { items: acc.items.push(
                GenericItemView { text, kind: GenericItemKind::Text },
            ), ..acc },
        )
    }

    fn name() -> &'static str {
        "proto"
    }

    fn empty() -> CommandProto {
        CommandProto {
            items: no_items(),
            comment: None,
        }
    }

    fn parse_attribs(&mut self, element: &str, attribs: &mut Attribs) -> (r: Result<
        (),
        ParseError,
    >) {
        self.comment = attribs.remove("comment");
        Ok(())
    }

    fn parse_child(
        &mut self,
        reader: &mut Reader,
        element: String,
        attribs: &mut Attribs,
    ) -> (r: Result<(), ParseError>) {
        let item = GenericItem::parse(reader, element, attribs)?;
        add_item(&mut self.items, item);
        Ok(())
    }

    fn parse_text(&mut self, text: String) -> (r: Result<(), ParseError>) {
        add_item(&mut self.items, GenericItem::text(text));
        Ok(())
    }
}

/// A child of a command, besides its prototype.
pub enum CommandItem {
    Comment(Comment),
    Param(CommandParam),
    ImplicitExternSyncParams(ImplicitExternSyncParams),
}

/// `CommandItem` with its strings as character sequences.
pub ghost enum CommandItemView {
    Comment(CommentView),
    Param(CommandParamView),
    ImplicitExternSyncParams(ImplicitExternSyncParamsView),
}

impl DeepView for CommandItem {
    type V = CommandItemView;

    open spec fn deep_view(&self) -> CommandItemView {
        match *self {
            CommandItem::Comment(x) => CommandItemView::Comment(x.deep_view()),
            CommandItem::Param(x) => CommandItemView::Param(x.deep_view()),
            CommandItem::ImplicitExternSyncParams(x) => CommandItemView::ImplicitExternSyncParams(
                x.deep_view(),
            ),
        }
    }
}

impl Parse for CommandItem {
    open spec fn spec_read(reader: ReaderView, element: Seq<char>, attribs: AttribsView) -> (
        Result<CommandItemView, ParseErrorView>,
        ReaderView,
    ) {
        if element == "comment"@ {
            map_read(
                Comment::spec_read(reader, element, attribs),
                |x: CommentView| CommandItemView::Comment(x),
            )
        } else if element == "param"@ {
            map_read(
                CommandParam::spec_read(reader, element, attribs),
                |x: CommandParamView| CommandItemView::Param(x),
            )
        } else if element == "implicitexternsyncparams"@ {
            map_read(
                ImplicitExternSyncParams::spec_read(reader, element, attribs),
                |x: ImplicitExternSyncParamsView| CommandItemView::ImplicitExternSyncParams(x),
            )
        } else {
            (Err(ParseErrorView::BadChild("command"@, element)), reader)
        }
    }

    fn parse(reader: &mut Reader, element: String, attribs: &mut Attribs) -> (r: Result<
        CommandItem,
        ParseError,
    >) {
        if str_eq(element.as_str(), "comment") {
            Ok(CommandItem::Comment(Comment::parse(reader, element, attribs)?))
        } else if str_eq(element.as_str(), "param") {
            Ok(CommandItem::Param(CommandParam::parse(reader, element, attribs)?))
        } else if str_eq(element.as_str(), "implicitexternsyncparams") {
            Ok(
                CommandItem::ImplicitExternSyncParams(
                    ImplicitExternSyncParams::parse(reader, element, attribs)?,
                ),
            )
        } else {
            Err(ParseError::BadChild(String::from_str("command"), element))
        }
    }
}

/// A parameter of a command.
pub struct CommandParam {
    pub api: Option<String>,
    pub optional: Option<Vec<bool>>,
    pub extern_sync: Option<ExternSync>,
    pub no_auto_validity: Option<bool>,
    pub len: Option<Vec<Len>>,
    pub stride: Option<String>,
    pub object_type: Option<String>,
    pub valid_structs: Option<Vec<String>>,
    pub items: Vec<GenericItem>,
    pub comment: Option<String>,
}

/// `CommandParam` with its strings as character sequences.
pub ghost struct CommandParamView {
    pub api: Option<Seq<char>>,
    pub optional: Option<Seq<bool>>,
    pub extern_sync: Option<ExternSyncView>,
    pub no_auto_validity: Option<bool>,
    pub len: Option<Seq<LenView>>,
    pub stride: Option<Seq<char>>,
    pub object_type: Option<Seq<char>>,
    pub valid_structs: Option<Seq<Seq<char>>>,
    pub items: Seq<GenericItemView>,
    pub comment: Option<Seq<char>>,
}

impl DeepView for CommandParam {
    type V = CommandParamView;

    open spec fn deep_view(&self) -> CommandParamView {
        CommandParamView {
            api: self.api.deep_view(),
            optional: self.optional.deep_view(),
            extern_sync: self.extern_sync.deep_view(),
            no_auto_validity: self.no_auto_validity.deep_view(),
            len: self.len.deep_view(),
            stride: self.stride.deep_view(),
            object_type: self.object_type.deep_view(),
            valid_structs: self.valid_structs.deep_view(),
            items: self.items.deep_view(),
            comment: self.comment.deep_view(),
        }
    }
}

impl GenericParse for CommandParam {
    open spec fn spec_name() -> Seq<char> {
        "param"@
    }

    open spec fn spec_empty() -> CommandParamView {
        CommandParamView {
            api: None,
            optional: None,
            extern_sync: None,
            no_auto_validity: None,
            len: None,
            stride: None,
            object_type: None,
            valid_structs: None,
            items: Seq::empty(),
            comment: None,
        }
    }

    open spec fn spec_attribs(
        acc: CommandParamView,
        element: Seq<char>,
        attribs: AttribsView,
    ) -> Result<
        (CommandParamView, AttribsView),
        ParseErrorView,
    > {
        let (api, a) = spec_take(attribs, "api"@);
        match spec_try_get_list::<bool>(a, element, "optional"@) {
            Err(e) => Err(e),
            Ok((optional, a)) => {
                match spec_try_get::<ExternSync>(a, element, "externsync"@) {
                    Err(e) => Err(e),
                    Ok((extern_sync, a)) => {
                        match spec_try_get::<bool>(a, element, "noautovalidity"@) {
                            Err(e) => Err(e),
                            Ok((no_auto_validity, a)) => {
                                let (len, a) = spec_take(a, "len"@);
                                let (alt_len, a) = spec_take(a, "altlen"@);
                                let len = Len::spec_from_attribs(len, alt_len);
                                let (stride, a) = spec_take(a, "stride"@);
                                let (object_type, a) = spec_take(a, "objecttype"@);
                                let (valid_structs, a) = spec_take_list(a, "validstructs"@);
                                let (comment, a) = spec_take(a, "comment"@);
                                Ok(
                                    (
                                        CommandParamView {
                                            api,
                                            optional,
                                            extern_sync,
                                            no_auto_validity,
                                            len,
                                            stride,
                                            object_type,
                                            valid_structs,
                                            comment,
                                            ..acc
                                        },
                                        a,
                                    ),
                                )
                            },
                        }
                    },
                }
            },
        }
    }

    open spec fn spec_child(
        acc: CommandParamView,
        reader: ReaderView,
        element: Seq<char>,
        attribs: AttribsView,
    ) -> (Result<CommandParamView, ParseErrorView>, ReaderView) {
        map_read(
            GenericItem::spec_read(reader, element, attribs),
            |item: GenericItemView|
                CommandParamView { items: acc.items.push(item), ..acc },
        )
    }

    open spec fn spec_text(
        acc: CommandParamView,
        text: Seq<char>,
    ) -> Result<CommandParamView, ParseErrorView> {
        Ok(
            CommandParamView { items: acc.items.push(
                GenericItemView { text, kind: GenericItemKind::Text },
            ), ..acc },
        )
    }

    fn name() -> &'static str {
        "param"
    }

    fn empty() -> CommandParam {
        CommandParam {
            api: None,
            optional: None,
            extern_sync: None,
            no_auto_validity: None,
            len: None,
            stride: None,
            object_type: None,
            valid_structs: None,
            items: no_items(),
            comment: None,
        }
    }

    fn parse_attribs(&mut self, element: &str, attribs: &mut Attribs) -> (r: Result<
        (),
        ParseError,
    >) {
        self.api = attribs.remove("api");
        self.optional = attribs.try_get_list::<bool>(element, "optional")?;
        self.extern_sync = attribs.try_get::<ExternSync>(element, "externsync")?;
        self.no_auto_validity = attribs.try_get::<bool>(element, "noautovalidity")?;
        let len = attribs.remove("len");
        let alt_len = attribs.remove("altlen");
        self.len = Len::from_attribs(len, alt_len);
        self.stride = attribs.remove("stride");
        self.object_type = attribs.remove("objecttype");
        self.valid_structs = attribs.remove_list("validstructs");
        self.comment = attribs.remove("comment");
        Ok(())
    }

    fn parse_child(
        &mut self,
        reader: &mut Reader,
        element: String,
        attribs: &mut Attribs,
    ) -> (r: Result<(), ParseError>) {
        let item = GenericItem::parse(reader, element, attribs)?;
        add_item(&mut self.items, item);
        Ok(())
    }

    fn parse_text(&mut self, text: String) -> (r: Result<(), ParseError>) {
        add_item(&mut self.items, GenericItem::text(text));
        Ok(())
    }
}

/// The objects that a command synchronises without naming them as parameters.
pub struct ImplicitExternSyncParams {
    pub items: Vec<ImplicitExternSyncParam>,
    pub comment: Option<String>,
}

/// `ImplicitExternSyncParams` with its strings as character sequences.
pub ghost struct ImplicitExternSyncParamsView {
    pub items: Seq<ImplicitExternSyncParamView>,
    pub comment: Option<Seq<char>>,
}

impl DeepView for ImplicitExternSyncParams {
    type V = ImplicitExternSyncParamsView;

    open spec fn deep_view(&self) -> ImplicitExternSyncParamsView {
        ImplicitExternSyncParamsView {
            items: self.items.deep_view(),
            comment: self.comment.deep_view(),
        }
    }
}

impl GenericParse for ImplicitExternSyncParams {
    open spec fn spec_name() -> Seq<char> {
        "implicitexternsyncparams"@
    }

    open spec fn spec_empty() -> ImplicitExternSyncParamsView {
        ImplicitExternSyncParamsView {
            items: Seq::empty(),
            comment: None,
        }
    }

    open spec fn spec_attribs(
        acc: ImplicitExternSyncParamsView,
        element: Seq<char>,
        attribs: AttribsView,
    ) -> Result<
        (ImplicitExternSyncParamsView, AttribsView),
        ParseErrorView,
    > {
        let (comment, a) = spec_take(attribs, "comment"@);
        Ok((ImplicitExternSyncParamsView { comment, ..acc }, a))
    }

    open spec fn spec_child(
        acc: ImplicitExternSyncParamsView,
        reader: ReaderView,
        element: Seq<char>,
        attribs: AttribsView,
    ) -> (Result<ImplicitExternSyncParamsView, ParseErrorView>, ReaderView) {
        map_read(
            ImplicitExternSyncParam::spec_read(reader, element, attribs),
            |item: ImplicitExternSyncParamView|
                ImplicitExternSyncParamsView { items: acc.items.push(item), ..acc },
        )
    }

    open spec fn spec_text(
        acc: ImplicitExternSyncParamsView,
        text: Seq<char>,
    ) -> Result<ImplicitExternSyncParamsView, ParseErrorView> {
        Err(ParseErrorView::BadContent(Self::spec_name(), text))
    }

    fn name() -> &'static str {
        "implicitexternsyncparams"
    }

    fn empty() -> ImplicitExternSyncParams {
        ImplicitExternSyncParams {
            items: no_items(),
            comment: None,
        }
    }

    fn parse_attribs(&mut self, element: &str, attribs: &mut Attribs) -> (r: Result<
        (),
        ParseError,
    >) {
        self.comment = attribs.remove("comment");
        Ok(())
    }

    fn parse_child(
        &mut self,
        reader: &mut Reader,
        element: String,
        attribs: &mut Attribs,
    ) -> (r: Result<(), ParseError>) {
        let item = ImplicitExternSyncParam::parse(reader, element, attribs)?;
        add_item(&mut self.items, item);
        Ok(())
    }

    fn parse_text(&mut self, text: String) -> (r: Result<(), ParseError>) {
        Err(ParseError::BadContent(String::from_str("implicitexternsyncparams"), text))
    }
}

/// One implicitly synchronised object, in words.
pub struct ImplicitExternSyncParam {
    pub text: String,
    pub comment: Option<String>,
}

/// `ImplicitExternSyncParam` with its strings as character sequences.
pub ghost struct ImplicitExternSyncParamView {
    pub text: Seq<char>,
    pub comment: Option<Seq<char>>,
}

impl DeepView for ImplicitExternSyncParam {
    type V = ImplicitExternSyncParamView;

    open spec fn deep_view(&self) -> ImplicitExternSyncParamView {
        ImplicitExternSyncParamView {
            text: self.text.deep_view(),
            comment: self.comment.deep_view(),
        }
    }
}

impl GenericParse for ImplicitExternSyncParam {
    open spec fn spec_name() -> Seq<char> {
        "param"@
    }

    open spec fn spec_empty() -> ImplicitExternSyncParamView {
        ImplicitExternSyncParamView {
            text: Seq::empty(),
            comment: None,
        }
    }

    open spec fn spec_attribs(
        acc: ImplicitExternSyncParamView,
        element: Seq<char>,
        attribs: AttribsView,
    ) -> Result<
        (ImplicitExternSyncParamView, AttribsView),
        ParseErrorView,
    > {
        let (comment, a) = spec_take(attribs, "comment"@);
        Ok((ImplicitExternSyncParamView { comment, ..acc }, a))
    }

    open spec fn spec_child(
        acc: ImplicitExternSyncParamView,
        reader: ReaderView,
        element: Seq<char>,
        attribs: AttribsView,
    ) -> (Result<ImplicitExternSyncParamView, ParseErrorView>, ReaderView) {
        (Err(ParseErrorView::BadChild(Self::spec_name(), element)), reader)
    }

    open spec fn spec_text(
        acc: ImplicitExternSyncParamView,
        text: Seq<char>,
    ) -> Result<ImplicitExternSyncParamView, ParseErrorView> {
        Ok(ImplicitExternSyncParamView { text: acc.text + text, ..acc })
    }

    fn name() -> &'static str {
        "param"
    }

    fn empty() -> ImplicitExternSyncParam {
        ImplicitExternSyncParam {
            text: String::new(),
            comment: None,
        }
    }

    fn parse_attribs(&mut self, element: &str, attribs: &mut Attribs) -> (r: Result<
        (),
        ParseError,
    >) {
        self.comment = attribs.remove("comment");
        Ok(())
    }

    fn parse_child(
        &mut self,
        reader: &mut Reader,
        element: String,
        attribs: &mut Attribs,
    ) -> (r: Result<(), ParseError>) {
        Err(ParseError::BadChild(String::from_str("param"), element))
    }

    fn parse_text(&mut self, text: String) -> (r: Result<(), ParseError>) {
        self.text.append(text.as_str());
        Ok(())
    }
}

/// A command that is another name for a command.
pub struct AliasCommand {
    pub name: String,
    pub alias: String,
    pub comment: Option<String>,
}

/// `AliasCommand` with its strings as character sequences.
pub ghost struct AliasCommandView {
    pub name: Seq<char>,
    pub alias: Seq<char>,
    pub comment: Option<Seq<char>>,
}

impl DeepView for AliasCommand {
    type V = AliasCommandView;

    open spec fn deep_view(&self) -> AliasCommandView {
        AliasCommandView {
            name: self.name.deep_view(),
            alias: self.alias.deep_view(),
            comment: self.comment.deep_view(),
        }
    }
}

impl GenericParse for AliasCommand {
    open spec fn spec_name() -> Seq<char> {
        "command"@
    }

    open spec fn spec_empty() -> AliasCommandView {
        AliasCommandView {
            name: Seq::empty(),
            alias: Seq::empty(),
            comment: None,
        }
    }

    open spec fn spec_attribs(
        acc: AliasCommandView,
        element: Seq<char>,
        attribs: AttribsView,
    ) -> Result<
        (AliasCommandView, AttribsView),
        ParseErrorView,
    > {
        match spec_req(attribs, element, "name"@) {
            Err(e) => Err(e),
            Ok((name, a)) => {
                match spec_req(a, element, "alias"@) {
                    Err(e) => Err(e),
                    Ok((alias, a)) => {
                        let (comment, a) = spec_take(a, "comment"@);
                        Ok((AliasCommandView { name, alias, comment }, a))
                    },
                }
            },
        }
    }

    open spec fn spec_child(
        acc: AliasCommandView,
        reader: ReaderView,
        element: Seq<char>,
        attribs: AttribsView,
    ) -> (Result<AliasCommandView, ParseErrorView>, ReaderView) {
        (Err(ParseErrorView::BadChild(Self::spec_name(), element)), reader)
    }

    open spec fn spec_text(
        acc: AliasCommandView,
        text: Seq<char>,
    ) -> Result<AliasCommandView, ParseErrorView> {
        Err(ParseErrorView::BadContent(Self::spec_name(), text))
    }

    fn name() -> &'static str {
        "command"
    }

    fn empty() -> AliasCommand {
        AliasCommand {
            name: String::new(),
            alias: String::new(),
            comment: None,
        }
    }

    fn parse_attribs(&mut self, element: &str, attribs: &mut Attribs) -> (r: Result<
        (),
        ParseError,
    >) {
        self.name = attribs.req_attrib(element, "name")?;
        self.alias = attribs.req_attrib(element, "alias")?;
        self.comment = attribs.remove("comment");
        Ok(())
    }

    fn parse_child(
        &mut self,
        reader: &mut Reader,
        element: String,
        attribs: &mut Attribs,
    ) -> (r: Result<(), ParseError>) {
        Err(ParseError::BadChild(String::from_str("command"), element))
    }

    fn parse_text(&mut self, text: String) -> (r: Result<(), ParseError>) {
        Err(ParseError::BadContent(String::from_str("command"), text))
    }
}

} // verus!
