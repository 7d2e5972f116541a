//! The root of the document and its simplest children: comments, platforms and tags.

use vstd::prelude::*;
use vstd::string::*;
use crate::attribs::Attribs;
use crate::attribs::AttribsView;
use crate::attribs::spec_req;
use crate::attribs::spec_take;
use crate::error::ParseError;
use crate::error::ParseErrorView;
use crate::parse::commands::Commands;
use crate::parse::commands::CommandsView;
use crate::parse::enums::Enums;
use crate::parse::enums::EnumsView;
use crate::parse::features::Extensions;
use crate::parse::features::ExtensionsView;
use crate::parse::features::Feature;
use crate::parse::features::FeatureView;
use crate::parse::formats::Formats;
use crate::parse::formats::FormatsView;
use crate::parse::protocol::GenericParse;
use crate::parse::protocol::Parse;
use crate::parse::protocol::Reader;
use crate::parse::protocol::ReaderView;
use crate::parse::protocol::add_item;
use crate::parse::protocol::map_read;
use crate::parse::protocol::no_items;
use crate::parse::spirv::SpirvCapabilities;
use crate::parse::spirv::SpirvCapabilitiesView;
use crate::parse::spirv::SpirvExtensions;
use crate::parse::spirv::SpirvExtensionsView;
use crate::parse::sync::Sync;
use crate::parse::sync::SyncView;
use crate::parse::types::Types;
use crate::parse::types::TypesView;
use crate::parse::video::VideoCodecs;
use crate::parse::video::VideoCodecsView;
use crate::text::str_eq;

verus! {

/// A `comment` element: free text.
pub struct Comment {
    pub text: String,
}

/// `Comment` with its strings as character sequences.
pub ghost struct CommentView {
    pub text: Seq<char>,
}

impl DeepView for Comment {
    type V = CommentView;

    open spec fn deep_view(&self) -> CommentView {
        CommentView {
            text: self.text.deep_view(),
        }
    }
}

impl GenericParse for Comment {
    open spec fn spec_name() -> Seq<char> {
        "comment"@
    }

    open spec fn spec_empty() -> CommentView {
        CommentView {
            text: Seq::empty(),
        }
    }

    open spec fn spec_attribs(acc: CommentView, element: Seq<char>, attribs: AttribsView) -> Result<
        (CommentView, AttribsView),
        ParseErrorView,
    > {
        Ok((acc, attribs))
    }

    open spec fn spec_child(
        acc: CommentView,
        reader: ReaderView,
        element: Seq<char>,
        attribs: AttribsView,
    ) -> (Result<CommentView, ParseErrorView>, ReaderView) {
        (Err(ParseErrorView::BadChild(Self::spec_name(), element)), reader)
    }

    open spec fn spec_text(
        acc: CommentView,
        text: Seq<char>,
    ) -> Result<CommentView, ParseErrorView> {
        Ok(CommentView { text: acc.text + text })
    }

    fn name() -> &'static str {
        "comment"
    }

    fn empty() -> Comment {
        Comment {
            text: String::new(),
        }
    }

    fn parse_attribs(&mut self, element: &str, attribs: &mut Attribs) -> (r: Result<
        (),
        ParseError,
    >) {
        Ok(())
    }

    fn parse_child(
        &mut self,
        reader: &mut Reader,
        element: String,
        attribs: &mut Attribs,
    ) -> (r: Result<(), ParseError>) {
        Err(ParseError::BadChild(String::from_str("comment"), element))
    }

    fn parse_text(&mut self, text: String) -> (r: Result<(), ParseError>) {
        self.text.append(text.as_str());
        Ok(())
    }
}

/// The root of the document.
pub struct Registry {
    pub items: Vec<RegistryItem>,
    pub comment: Option<String>,
}

/// `Registry` with its strings as character sequences.
pub ghost struct RegistryView {
    pub items: Seq<RegistryItemView>,
    pub comment: Option<Seq<char>>,
}

impl DeepView for Registry {
    type V = RegistryView;

    open spec fn deep_view(&self) -> RegistryView {
        RegistryView {
            items: self.items.deep_view(),
            comment: self.comment.deep_view(),
        }
    }
}

impl GenericParse for Registry {
    open spec fn spec_name() -> Seq<char> {
        "registry"@
    }

    open spec fn spec_empty() -> RegistryView {
        RegistryView {
            items: Seq::empty(),
            comment: None,
        }
    }

    open spec fn spec_attribs(
        acc: RegistryView,
        element: Seq<char>,
        attribs: AttribsView,
    ) -> Result<
        (RegistryView, AttribsView),
        ParseErrorView,
    > {
        let (comment, a) = spec_take(attribs, "comment"@);
        Ok((RegistryView { comment, ..acc }, a))
    }

    open spec fn spec_child(
        acc: RegistryView,
        reader: ReaderView,
        element: Seq<char>,
        attribs: AttribsView,
    ) -> (Result<RegistryView, ParseErrorView>, ReaderView) {
        map_read(
            RegistryItem::spec_read(reader, element, attribs),
            |item: RegistryItemView| RegistryView { items: acc.items.push(item), ..acc },
        )
    }

    open spec fn spec_text(
        acc: RegistryView,
        text: Seq<char>,
    ) -> Result<RegistryView, ParseErrorView> {
        Err(ParseErrorView::BadContent(Self::spec_name(), text))
    }

    fn name() -> &'static str {
        "registry"
    }

    fn empty() -> Registry {
        Registry {
            items: no_items(),
            comment: None,
        }
    }

    fn parse_attribs(&mut self, element: &str, attribs: &mut Attribs) -> (r: Result<
        (),
        ParseError,
    >) {
        self.comment = attribs.remove("comment");
        Ok(())
    }

    fn parse_child(
        &mut self,
        reader: &mut Reader,
        element: String,
        attribs: &mut Attribs,
    ) -> (r: Result<(), ParseError>) {
        let item = RegistryItem::parse(reader, element, attribs)?;
        add_item(&mut self.items, item);
        Ok(())
    }

    fn parse_text(&mut self, text: String) -> (r: Result<(), ParseError>) {
        Err(ParseError::BadContent(String::from_str("registry"), text))
    }
}

/// A child of the root element.
pub enum RegistryItem {
    Comment(Comment),
    Platforms(Platforms),
    Tags(Tags),
    Types(Types),
    Enums(Enums),
    Commands(Commands),
    Feature(Feature),
    Extensions(Extensions),
    Formats(Formats),
    SpirvExtensions(SpirvExtensions),
    SpirvCapabilities(SpirvCapabilities),
    Sync(Sync),
    VideoCodecs(VideoCodecs),
}

/// `RegistryItem` with its strings as character sequences.
pub ghost enum RegistryItemView {
    Comment(CommentView),
    Platforms(PlatformsView),
    Tags(TagsView),
    Types(TypesView),
    Enums(EnumsView),
    Commands(CommandsView),
    Feature(FeatureView),
    Extensions(ExtensionsView),
    Formats(FormatsView),
    SpirvExtensions(SpirvExtensionsView),
    SpirvCapabilities(SpirvCapabilitiesView),
    Sync(SyncView),
    VideoCodecs(VideoCodecsView),
}

impl DeepView for RegistryItem {
    type V = RegistryItemView;

    open spec fn deep_view(&self) -> RegistryItemView {
        match *self {
            RegistryItem::Comment(x) => RegistryItemView::Comment(x.deep_view()),
            RegistryItem::Platforms(x) => RegistryItemView::Platforms(x.deep_view()),
            RegistryItem::Tags(x) => RegistryItemView::Tags(x.deep_view()),
            RegistryItem::Types(x) => RegistryItemView::Types(x.deep_view()),
            RegistryItem::Enums(x) => RegistryItemView::Enums(x.deep_view()),
            RegistryItem::Commands(x) => RegistryItemView::Commands(x.deep_view()),
            RegistryItem::Feature(x) => RegistryItemView::Feature(x.deep_view()),
            RegistryItem::Extensions(x) => RegistryItemView::Extensions(x.deep_view()),
            RegistryItem::Formats(x) => RegistryItemView::Formats(x.deep_view()),
            RegistryItem::SpirvExtensions(x) => RegistryItemView::SpirvExtensions(x.deep_view()),
            RegistryItem::SpirvCapabilities(x) => RegistryItemView::SpirvCapabilities(
                x.deep_view(),
            ),
            RegistryItem::Sync(x) => RegistryItemView::Sync(x.deep_view()),
            RegistryItem::VideoCodecs(x) => RegistryItemView::VideoCodecs(x.deep_view()),
        }
    }
}

impl Parse for RegistryItem {
    open spec fn spec_read(reader: ReaderView, element: Seq<char>, attribs: AttribsView) -> (
        Result<RegistryItemView, ParseErrorView>,
        ReaderView,
    ) {
        if element == "comment"@ {
            map_read(
                Comment::spec_read(reader, element, attribs),
                |x: CommentView| RegistryItemView::Comment(x),
            )
        } else if element == "platforms"@ {
            map_read(
                Platforms::spec_read(reader, element, attribs),
                |x: PlatformsView| RegistryItemView::Platforms(x),
            )
        } else if element == "tags"@ {
            map_read(
                Tags::spec_read(reader, element, attribs),
                |x: TagsView| RegistryItemView::Tags(x),
            )
        } else if element == "types"@ {
            map_read(
                Types::spec_read(reader, element, attribs),
                |x: TypesView| RegistryItemView::Types(x),
            )
        } else if element == "enums"@ {
            map_read(
                Enums::spec_read(reader, element, attribs),
                |x: EnumsView| RegistryItemView::Enums(x),
            )
        } else if element == "commands"@ {
            map_read(
                Commands::spec_read(reader, element, attribs),
                |x: CommandsView| RegistryItemView::Commands(x),
            )
        } else if element == "feature"@ {
            map_read(
                Feature::spec_read(reader, element, attribs),
                |x: FeatureView| RegistryItemView::Feature(x),
            )
        } else if element == "extensions"@ {
            map_read(
                Extensions::spec_read(reader, element, attribs),
                |x: ExtensionsView| RegistryItemView::Extensions(x),
            )
        } else if element == "formats"@ {
            map_read(
                Formats::spec_read(reader, element, attribs),
                |x: FormatsView| RegistryItemView::Formats(x),
            )
        } else if element == "spirvextensions"@ {
            map_read(
                SpirvExtensions::spec_read(reader, element, attribs),
                |x: SpirvExtensionsView| RegistryItemView::SpirvExtensions(x),
            )
        } else if element == "spirvcapabilities"@ {
            map_read(
                SpirvCapabilities::spec_read(reader, element, attribs),
                |x: SpirvCapabilitiesView| RegistryItemView::SpirvCapabilities(x),
            )
        } else if element == "sync"@ {
            map_read(
                Sync::spec_read(reader, element, attribs),
                |x: SyncView| RegistryItemView::Sync(x),
            )
        } else if element == "videocodecs"@ {
            map_read(
                VideoCodecs::spec_read(reader, element, attribs),
                |x: VideoCodecsView| RegistryItemView::VideoCodecs(x),
            )
        } else {
            (Err(ParseErrorView::BadChild("registry"@, element)), reader)
        }
    }

    fn parse(reader: &mut Reader, element: String, attribs: &mut Attribs) -> (r: Result<
        RegistryItem,
        ParseError,
    >) {
        if str_eq(element.as_str(), "comment") {
            Ok(RegistryItem::Comment(Comment::parse(reader, element, attribs)?))
        } else if str_eq(element.as_str(), "platforms") {
            Ok(RegistryItem::Platforms(Platforms::parse(reader, element, attribs)?))
        } else if str_eq(element.as_str(), "tags") {
            Ok(RegistryItem::Tags(Tags::parse(reader, element, attribs)?))
        } else if str_eq(element.as_str(), "types") {
            Ok(RegistryItem::Types(Types::parse(reader, element, attribs)?))
        } else if str_eq(element.as_str(), "enums") {
            Ok(RegistryItem::Enums(Enums::parse(reader, element, attribs)?))
        } else if str_eq(element.as_str(), "commands") {
            Ok(RegistryItem::Commands(Commands::parse(reader, element, attribs)?))
        } else if str_eq(element.as_str(), "feature") {
            Ok(RegistryItem::Feature(Feature::parse(reader, element, attribs)?))
        } else if str_eq(element.as_str(), "extensions") {
            Ok(RegistryItem::Extensions(Extensions::parse(reader, element, attribs)?))
        } else if str_eq(element.as_str(), "formats") {
            Ok(RegistryItem::Formats(Formats::parse(reader, element, attribs)?))
        } else if str_eq(element.as_str(), "spirvextensions") {
            Ok(RegistryItem::SpirvExtensions(SpirvExtensions::parse(reader, element, attribs)?))
        } else if str_eq(element.as_str(), "spirvcapabilities") {
            Ok(RegistryItem::SpirvCapabilities(SpirvCapabilities::parse(reader, element, attribs)?))
        } else if str_eq(element.as_str(), "sync") {
            Ok(RegistryItem::Sync(Sync::parse(reader, element, attribs)?))
        } else if str_eq(element.as_str(), "videocodecs") {
            Ok(RegistryItem::VideoCodecs(VideoCodecs::parse(reader, element, attribs)?))
        } else {
            Err(ParseError::BadChild(String::from_str("registry"), element))
        }
    }
}

/// The `platforms` element: the list of platforms.
pub struct Platforms {
    pub items: Vec<Platform>,
    pub comment: Option<String>,
}

/// `Platforms` with its strings as character sequences.
pub ghost struct PlatformsView {
    pub items: Seq<PlatformView>,
    pub comment: Option<Seq<char>>,
}

impl DeepView for Platforms {
    type V = PlatformsView;

    open spec fn deep_view(&self) -> PlatformsView {
        PlatformsView {
            items: self.items.deep_view(),
            comment: self.comment.deep_view(),
        }
    }
}

impl GenericParse for Platforms {
    open spec fn spec_name() -> Seq<char> {
        "platforms"@
    }

    open spec fn spec_empty() -> PlatformsView {
        PlatformsView {
            items: Seq::empty(),
            comment: None,
        }
    }

    open spec fn spec_attribs(
        acc: PlatformsView,
        element: Seq<char>,
        attribs: AttribsView,
    ) -> Result<
        (PlatformsView, AttribsView),
        ParseErrorView,
    > {
        let (comment, a) = spec_take(attribs, "comment"@);
        Ok((PlatformsView { comment, ..acc }, a))
    }

    open spec fn spec_child(
        acc: PlatformsView,
        reader: ReaderView,
        element: Seq<char>,
        attribs: AttribsView,
    ) -> (Result<PlatformsView, ParseErrorView>, ReaderView) {
        map_read(
            Platform::spec_read(reader, element, attribs),
            |item: PlatformView| PlatformsView { items: acc.items.push(item), ..acc },
        )
    }

    open spec fn spec_text(
        acc: PlatformsView,
        text: Seq<char>,
    ) -> Result<PlatformsView, ParseErrorView> {
        Err(ParseErrorView::BadContent(Self::spec_name(), text))
    }

    fn name() -> &'static str {
        "platforms"
    }

    fn empty() -> Platforms {
        Platforms {
            items: no_items(),
            comment: None,
        }
    }

    fn parse_attribs(&mut self, element: &str, attribs: &mut Attribs) -> (r: Result<
        (),
        ParseError,
    >) {
        self.comment = attribs.remove("comment");
        Ok(())
    }

    fn parse_child(
        &mut self,
        reader: &mut Reader,
        element: String,
        attribs: &mut Attribs,
    ) -> (r: Result<(), ParseError>) {
        let item = Platform::parse(reader, element, attribs)?;
        add_item(&mut self.items, item);
        Ok(())
    }

    fn parse_text(&mut self, text: String) -> (r: Result<(), ParseError>) {
        Err(ParseError::BadContent(String::from_str("platforms"), text))
    }
}

/// A platform and the macro that guards its interfaces.
pub struct Platform {
    pub name: String,
    pub protect: String,
    pub comment: Option<String>,
}

/// `Platform` with its strings as character sequences.
pub ghost struct PlatformView {
    pub name: Seq<char>,
    pub protect: Seq<char>,
    pub comment: Option<Seq<char>>,
}

impl DeepView for Platform {
    type V = PlatformView;

    open spec fn deep_view(&self) -> PlatformView {
        PlatformView {
            name: self.name.deep_view(),
            protect: self.protect.deep_view(),
            comment: self.comment.deep_view(),
        }
    }
}

impl GenericParse for Platform {
    open spec fn spec_name() -> Seq<char> {
        "platform"@
    }

    open spec fn spec_empty() -> PlatformView {
        PlatformView {
            name: Seq::empty(),
            protect: Seq::empty(),
            comment: None,
        }
    }

    open spec fn spec_attribs(
        acc: PlatformView,
        element: Seq<char>,
        attribs: AttribsView,
    ) -> Result<
        (PlatformView, AttribsView),
        ParseErrorView,
    > {
        match spec_req(attribs, element, "name"@) {
            Err(e) => Err(e),
            Ok((name, a)) => {
                match spec_req(a, element, "protect"@) {
                    Err(e) => Err(e),
                    Ok((protect, a)) => {
                        let (comment, a) = spec_take(a, "comment"@);
                        Ok((PlatformView { name, protect, comment }, a))
                    },
                }
            },
        }
    }

    open spec fn spec_child(
        acc: PlatformView,
        reader: ReaderView,
        element: Seq<char>,
        attribs: AttribsView,
    ) -> (Result<PlatformView, ParseErrorView>, ReaderView) {
        (Err(ParseErrorView::BadChild(Self::spec_name(), element)), reader)
    }

    open spec fn spec_text(
        acc: PlatformView,
        text: Seq<char>,
    ) -> Result<PlatformView, ParseErrorView> {
        Err(ParseErrorView::BadContent(Self::spec_name(), text))
    }

    fn name() -> &'static str {
        "platform"
    }

    fn empty() -> Platform {
        Platform {
            name: String::new(),
            protect: String::new(),
            comment: None,
        }
    }

    fn parse_attribs(&mut self, element: &str, attribs: &mut Attribs) -> (r: Result<
        (),
        ParseError,
    >) {
        self.name = attribs.req_attrib(element, "name")?;
        self.protect = attribs.req_attrib(element, "protect")?;
        self.comment = attribs.remove("comment");
        Ok(())
    }

    fn parse_child(
        &mut self,
        reader: &mut Reader,
        element: String,
        attribs: &mut Attribs,
    ) -> (r: Result<(), ParseError>) {
        Err(ParseError::BadChild(String::from_str("platform"), element))
    }

    fn parse_text(&mut self, text: String) -> (r: Result<(), ParseError>) {
        Err(ParseError::BadContent(String::from_str("platform"), text))
    }
}

/// The `tags` element: the list of author tags.
pub struct Tags {
    pub items: Vec<Tag>,
    pub comment: Option<String>,
}

/// `Tags` with its strings as character sequences.
pub ghost struct TagsView {
    pub items: Seq<TagView>,
    pub comment: Option<Seq<char>>,
}

impl DeepView for Tags {
    type V = TagsView;

    open spec fn deep_view(&self) -> TagsView {
        TagsView {
            items: self.items.deep_view(),
            comment: self.comment.deep_view(),
        }
    }
}

impl GenericParse for Tags {
    open spec fn spec_name() -> Seq<char> {
        "tags"@
    }

    open spec fn spec_empty() -> TagsView {
        TagsView {
            items: Seq::empty(),
            comment: None,
        }
    }

    open spec fn spec_attribs(acc: TagsView, element: Seq<char>, attribs: AttribsView) -> Result<
        (TagsView, AttribsView),
        ParseErrorView,
    > {
        let (comment, a) = spec_take(attribs, "comment"@);
        Ok((TagsView { comment, ..acc }, a))
    }

    open spec fn spec_child(
        acc: TagsView,
        reader: ReaderView,
        element: Seq<char>,
        attribs: AttribsView,
    ) -> (Result<TagsView, ParseErrorView>, ReaderView) {
        map_read(
            Tag::spec_read(reader, element, attribs),
            |item: TagView| TagsView { items: acc.items.push(item), ..acc },
        )
    }

    open spec fn spec_text(acc: TagsView, text: Seq<char>) -> Result<TagsView, ParseErrorView> {
        Err(ParseErrorView::BadContent(Self::spec_name(), text))
    }

    fn name() -> &'static str {
        "tags"
    }

    fn empty() -> Tags {
        Tags {
            items: no_items(),
            comment: None,
        }
    }

    fn parse_attribs(&mut self, element: &str, attribs: &mut Attribs) -> (r: Result<
        (),
        ParseError,
    >) {
        self.comment = attribs.remove("comment");
        Ok(())
    }

    fn parse_child(
        &mut self,
        reader: &mut Reader,
        element: String,
        attribs: &mut Attribs,
    ) -> (r: Result<(), ParseError>) {
        let item = Tag::parse(reader, element, attribs)?;
        add_item(&mut self.items, item);
        Ok(())
    }

    fn parse_text(&mut self, text: String) -> (r: Result<(), ParseError>) {
        Err(ParseError::BadContent(String::from_str("tags"), text))
    }
}

/// An author tag.
pub struct Tag {
    pub name: String,
    pub author: String,
    pub contact: String,
    pub comment: Option<String>,
}

/// `Tag` with its strings as character sequences.
pub ghost struct TagView {
    pub name: Seq<char>,
    pub author: Seq<char>,
    pub contact: Seq<char>,
    pub comment: Option<Seq<char>>,
}

impl DeepView for Tag {
    type V = TagView;

    open spec fn deep_view(&self) -> TagView {
        TagView {
            name: self.name.deep_view(),
            author: self.author.deep_view(),
            contact: self.contact.deep_view(),
            comment: self.comment.deep_view(),
        }
    }
}

impl GenericParse for Tag {
    open spec fn spec_name() -> Seq<char> {
        "tag"@
    }

    open spec fn spec_empty() -> TagView {
        TagView {
            name: Seq::empty(),
            author: Seq::empty(),
            contact: Seq::empty(),
            comment: None,
        }
    }

    open spec fn spec_attribs(acc: TagView, element: Seq<char>, attribs: AttribsView) -> Result<
        (TagView, AttribsView),
        ParseErrorView,
    > {
        match spec_req(attribs, element, "name"@) {
            Err(e) => Err(e),
            Ok((name, a)) => {
                match spec_req(a, element, "author"@) {
                    Err(e) => Err(e),
                    Ok((author, a)) => {
                        match spec_req(a, element, "contact"@) {
                            Err(e) => Err(e),
                            Ok((contact, a)) => {
                                let (comment, a) = spec_take(a, "comment"@);
                                Ok((TagView { name, author, contact, comment }, a))
                            },
                        }
                    },
                }
            },
        }
    }

    open spec fn spec_child(
        acc: TagView,
        reader: ReaderView,
        element: Seq<char>,
        attribs: AttribsView,
    ) -> (Result<TagView, ParseErrorView>, ReaderView) {
        (Err(ParseErrorView::BadChild(Self::spec_name(), element)), reader)
    }

    open spec fn spec_text(acc: TagView, text: Seq<char>) -> Result<TagView, ParseErrorView> {
        Err(ParseErrorView::BadContent(Self::spec_name(), text))
    }

    fn name() -> &'static str {
        "tag"
    }

    fn empty() -> Tag {
        Tag {
            name: String::new(),
            author: String::new(),
            contact: String::new(),
            comment: None,
        }
    }

    fn parse_attribs(&mut self, element: &str, attribs: &mut Attribs) -> (r: Result<
        (),
        ParseError,
    >) {
        self.name = attribs.req_attrib(element, "name")?;
        self.author = attribs.req_attrib(element, "author")?;
        self.contact = attribs.req_attrib(element, "contact")?;
        self.comment = attribs.remove("comment");
        Ok(())
    }

    fn parse_child(
        &mut self,
        reader: &mut Reader,
        element: String,
        attribs: &mut Attribs,
    ) -> (r: Result<(), ParseError>) {
        Err(ParseError::BadChild(String::from_str("tag"), element))
    }

    fn parse_text(&mut self, text: String) -> (r: Result<(), ParseError>) {
        Err(ParseError::BadContent(String::from_str("tag"), text))
    }
}

} // verus!
