//! The `feature` and `extensions` elements.
//!
//! Each lists, in `require` and `remove` blocks, the types, enumerants and commands that it
//! introduces or takes away.

use vstd::prelude::*;
use vstd::string::*;
use crate::attribs::Attribs;
use crate::attribs::AttribsView;
use crate::attribs::attr_get;
use crate::attribs::spec_req;
use crate::attribs::spec_req_list;
use crate::attribs::spec_take;
use crate::attribs::spec_take_list;
use crate::attribs::spec_try_get;
use crate::error::ParseError;
use crate::error::ParseErrorView;
use crate::parse::depends::Depends;
use crate::parse::depends::DependsView;
use crate::parse::protocol::GenericParse;
use crate::parse::protocol::Parse;
use crate::parse::protocol::Reader;
use crate::parse::protocol::ReaderView;
use crate::parse::protocol::add_item;
use crate::parse::protocol::map_read;
use crate::parse::protocol::no_items;
use crate::parse::registry::Comment;
use crate::parse::registry::CommentView;
use crate::parse::values::Dir;
use crate::repr::Deprecation;
use crate::text::str_eq;

verus! {

/// A `feature` element: a core version of the API.
pub struct Feature {
    pub name: String,
    pub number: String,
    pub api: Vec<String>,
    pub depends: Option<Depends>,
    pub items: Vec<FeatureItem>,
    pub comment: Option<String>,
}

/// `Feature` with its strings as character sequences.
pub ghost struct FeatureView {
    pub name: Seq<char>,
    pub number: Seq<char>,
    pub api: Seq<Seq<char>>,
    pub depends: Option<DependsView>,
    pub items: Seq<FeatureItemView>,
    pub comment: Option<Seq<char>>,
}

impl DeepView for Feature {
    type V = FeatureView;

    open spec fn deep_view(&self) -> FeatureView {
        FeatureView {
            name: self.name.deep_view(),
            number: self.number.deep_view(),
            api: self.api.deep_view(),
            depends: self.depends.deep_view(),
            items: self.items.deep_view(),
            comment: self.comment.deep_view(),
        }
    }
}

impl GenericParse for Feature {
    open spec fn spec_name() -> Seq<char> {
        "feature"@
    }

    open spec fn spec_empty() -> FeatureView {
        FeatureView {
            name: Seq::empty(),
            number: Seq::empty(),
            api: Seq::empty(),
            depends: None,
            items: Seq::empty(),
            comment: None,
        }
    }

    open spec fn spec_attribs(acc: FeatureView, element: Seq<char>, attribs: AttribsView) -> Result<
        (FeatureView, AttribsView),
        ParseErrorView,
    > {
        match spec_req(attribs, element, "name"@) {
            Err(e) => Err(e),
            Ok((name, a)) => {
                match spec_req(a, element, "number"@) {
                    Err(e) => Err(e),
                    Ok((number, a)) => {
                        match spec_req_list(a, element, "api"@) {
                            Err(e) => Err(e),
                            Ok((api, a)) => {
                                match spec_try_get::<Depends>(a, element, "depends"@) {
                                    Err(e) => Err(e),
                                    Ok((depends, a)) => {
                                        let (comment, a) = spec_take(a, "comment"@);
                                        Ok(
                                            (
                                                FeatureView {
                                                    name,
                                                    number,
                                                    api,
                                                    depends,
                                                    comment,
                                                    ..acc
                                                },
                                                a,
                                            ),
                                        )
                                    },
                                }
                            },
                        }
                    },
                }
            },
        }
    }

    open spec fn spec_child(
        acc: FeatureView,
        reader: ReaderView,
        element: Seq<char>,
        attribs: AttribsView,
    ) -> (Result<FeatureView, ParseErrorView>, ReaderView) {
        map_read(
            FeatureItem::spec_read(reader, element, attribs),
            |item: FeatureItemView| FeatureView { items: acc.items.push(item), ..acc },
        )
    }

    open spec fn spec_text(
        acc: FeatureView,
        text: Seq<char>,
    ) -> Result<FeatureView, ParseErrorView> {
        Err(ParseErrorView::BadContent(Self::spec_name(), text))
    }

    fn name() -> &'static str {
        "feature"
    }

    fn empty() -> Feature {
        Feature {
            name: String::new(),
            number: String::new(),
            api: no_items(),
            depends: None,
            items: no_items(),
            comment: None,
        }
    }

    fn parse_attribs(&mut self, element: &str, attribs: &mut Attribs) -> (r: Result<
        (),
        ParseError,
    >) {
        self.name = attribs.req_attrib(element, "name")?;
        self.number = attribs.req_attrib(element, "number")?;
        self.api = attribs.req_list(element, "api")?;
        self.depends = attribs.try_get::<Depends>(element, "depends")?;
        self.comment = attribs.remove("comment");
        Ok(())
    }

    fn parse_child(
        &mut self,
        reader: &mut Reader,
        element: String,
        attribs: &mut Attribs,
    ) -> (r: Result<(), ParseError>) {
        let item = FeatureItem::parse(reader, element, attribs)?;
        add_item(&mut self.items, item);
        Ok(())
    }

    fn parse_text(&mut self, text: String) -> (r: Result<(), ParseError>) {
        Err(ParseError::BadContent(String::from_str("feature"), text))
    }
}

/// A child of a `feature` element.
pub enum FeatureItem {
    Comment(Comment),
    Require(Require),
    Remove(Remove),
}

/// `FeatureItem` with its strings as character sequences.
pub ghost enum FeatureItemView {
    Comment(CommentView),
    Require(RequireView),
    Remove(RemoveView),
}

impl DeepView for FeatureItem {
    type V = FeatureItemView;

    open spec fn deep_view(&self) -> FeatureItemView {
        match *self {
            FeatureItem::Comment(x) => FeatureItemView::Comment(x.deep_view()),
            FeatureItem::Require(x) => FeatureItemView::Require(x.deep_view()),
            FeatureItem::Remove(x) => FeatureItemView::Remove(x.deep_view()),
        }
    }
}

impl Parse for FeatureItem {
    open spec fn spec_read(reader: ReaderView, element: Seq<char>, attribs: AttribsView) -> (
        Result<FeatureItemView, ParseErrorView>,
        ReaderView,
    ) {
        if element == "comment"@ {
            map_read(
                Comment::spec_read(reader, element, attribs),
                |x: CommentView| FeatureItemView::Comment(x),
            )
        } else if element == "require"@ {
            map_read(
                Require::spec_read(reader, element, attribs),
                |x: RequireView| FeatureItemView::Require(x),
            )
        } else if element == "remove"@ {
            map_read(
                Remove::spec_read(reader, element, attribs),
                |x: RemoveView| FeatureItemView::Remove(x),
            )
        } else {
            (Err(ParseErrorView::BadChild("feature"@, element)), reader)
        }
    }

    fn parse(reader: &mut Reader, element: String, attribs: &mut Attribs) -> (r: Result<
        FeatureItem,
        ParseError,
    >) {
        if str_eq(element.as_str(), "comment") {
            Ok(FeatureItem::Comment(Comment::parse(reader, element, attribs)?))
        } else if str_eq(element.as_str(), "require") {
            Ok(FeatureItem::Require(Require::parse(reader, element, attribs)?))
        } else if str_eq(element.as_str(), "remove") {
            Ok(FeatureItem::Remove(Remove::parse(reader, element, attribs)?))
        } else {
            Err(ParseError::BadChild(String::from_str("feature"), element))
        }
    }
}

/// The `extensions` element: the list of extensions.
pub struct Extensions {
    pub items: Vec<Extension>,
    pub comment: Option<String>,
}

/// `Extensions` with its strings as character sequences.
pub ghost struct ExtensionsView {
    pub items: Seq<ExtensionView>,
    pub comment: Option<Seq<char>>,
}

impl DeepView for Extensions {
    type V = ExtensionsView;

    open spec fn deep_view(&self) -> ExtensionsView {
        ExtensionsView {
            items: self.items.deep_view(),
            comment: self.comment.deep_view(),
        }
    }
}

impl GenericParse for Extensions {
    open spec fn spec_name() -> Seq<char> {
        "extensions"@
    }

    open spec fn spec_empty() -> ExtensionsView {
        ExtensionsView {
            items: Seq::empty(),
            comment: None,
        }
    }

    open spec fn spec_attribs(
        acc: ExtensionsView,
        element: Seq<char>,
        attribs: AttribsView,
    ) -> Result<
        (ExtensionsView, AttribsView),
        ParseErrorView,
    > {
        let (comment, a) = spec_take(attribs, "comment"@);
        Ok((ExtensionsView { comment, ..acc }, a))
    }

    open spec fn spec_child(
        acc: ExtensionsView,
        reader: ReaderView,
        element: Seq<char>,
        attribs: AttribsView,
    ) -> (Result<ExtensionsView, ParseErrorView>, ReaderView) {
        map_read(
            Extension::spec_read(reader, element, attribs),
            |item: ExtensionView| ExtensionsView { items: acc.items.push(item), ..acc },
        )
    }

    open spec fn spec_text(
        acc: ExtensionsView,
        text: Seq<char>,
    ) -> Result<ExtensionsView, ParseErrorView> {
        Err(ParseErrorView::BadContent(Self::spec_name(), text))
    }

    fn name() -> &'static str {
        "extensions"
    }

    fn empty() -> Extensions {
        Extensions {
            items: no_items(),
            comment: None,
        }
    }

    fn parse_attribs(&mut self, element: &str, attribs: &mut Attribs) -> (r: Result<
        (),
        ParseError,
    >) {
        self.comment = attribs.remove("comment");
        Ok(())
    }

    fn parse_child(
        &mut self,
        reader: &mut Reader,
        element: String,
        attribs: &mut Attribs,
    ) -> (r: Result<(), ParseError>) {
        let item = Extension::parse(reader, element, attribs)?;
        add_item(&mut self.items, item);
        Ok(())
    }

    fn parse_text(&mut self, text: String) -> (r: Result<(), ParseError>) {
        Err(ParseError::BadContent(String::from_str("extensions"), text))
    }
}

/// An extension of the API.
pub struct Extension {
    pub name: String,
    pub number: String,
    pub supported_api: Vec<String>,
    pub extension_type: Option<String>,
    pub depends: Option<Depends>,
    pub platform: Option<String>,
    pub deprecated_by: Option<String>,
    pub obsoleted_by: Option<String>,
    pub promoted_to: Option<String>,
    pub author: Option<String>,
    pub contact: Option<String>,
    pub ratified: Option<String>,
    pub provisional: Option<bool>,
    pub special_use: Option<String>,
    pub sort_order: Option<String>,
    pub items: Vec<ExtensionItem>,
    pub comment: Option<String>,
}

/// `Extension` with its strings as character sequences.
pub ghost struct ExtensionView {
    pub name: Seq<char>,
    pub number: Seq<char>,
    pub supported_api: Seq<Seq<char>>,
    pub extension_type: Option<Seq<char>>,
    pub depends: Option<DependsView>,
    pub platform: Option<Seq<char>>,
    pub deprecated_by: Option<Seq<char>>,
    pub obsoleted_by: Option<Seq<char>>,
    pub promoted_to: Option<Seq<char>>,
    pub author: Option<Seq<char>>,
    pub contact: Option<Seq<char>>,
    pub ratified: Option<Seq<char>>,
    pub provisional: Option<bool>,
    pub special_use: Option<Seq<char>>,
    pub sort_order: Option<Seq<char>>,
    pub items: Seq<ExtensionItemView>,
    pub comment: Option<Seq<char>>,
}

impl DeepView for Extension {
    type V = ExtensionView;

    open spec fn deep_view(&self) -> ExtensionView {
        ExtensionView {
            name: self.name.deep_view(),
            number: self.number.deep_view(),
            supported_api: self.supported_api.deep_view(),
            extension_type: self.extension_type.deep_view(),
            depends: self.depends.deep_view(),
            platform: self.platform.deep_view(),
            deprecated_by: self.deprecated_by.deep_view(),
            obsoleted_by: self.obsoleted_by.deep_view(),
            promoted_to: self.promoted_to.deep_view(),
            author: self.author.deep_view(),
            contact: self.contact.deep_view(),
            ratified: self.ratified.deep_view(),
            provisional: self.provisional.deep_view(),
            special_use: self.special_use.deep_view(),
            sort_order: self.sort_order.deep_view(),
            items: self.items.deep_view(),
            comment: self.comment.deep_view(),
        }
    }
}

impl GenericParse for Extension {
    open spec fn spec_name() -> Seq<char> {
        "extension"@
    }

    open spec fn spec_empty() -> ExtensionView {
        ExtensionView {
            name: Seq::empty(),
            number: Seq::empty(),
            supported_api: Seq::empty(),
            extension_type: None,
            depends: None,
            platform: None,
            deprecated_by: None,
            obsoleted_by: None,
            promoted_to: None,
            author: None,
            contact: None,
            ratified: None,
            provisional: None,
            special_use: None,
            sort_order: None,
            items: Seq::empty(),
            comment: None,
        }
    }

    open spec fn spec_attribs(
        acc: ExtensionView,
        element: Seq<char>,
        attribs: AttribsView,
    ) -> Result<
        (ExtensionView, AttribsView),
        ParseErrorView,
    > {
        match spec_req(attribs, element, "name"@) {
            Err(e) => Err(e),
            Ok((name, a)) => {
                match spec_req(a, element, "number"@) {
                    Err(e) => Err(e),
                    Ok((number, a)) => {
                        match spec_req_list(a, element, "supported"@) {
                            Err(e) => Err(e),
                            Ok((supported_api, a)) => {
                                let (extension_type, a) = spec_take(a, "type"@);
                                match spec_try_get::<Depends>(a, element, "depends"@) {
                                    Err(e) => Err(e),
                                    Ok((depends, a)) => {
                                        let (platform, a) = spec_take(a, "platform"@);
                                        let (deprecated_by, a) = spec_take(a, "deprecatedby"@);
                                        let (obsoleted_by, a) = spec_take(a, "obsoletedby"@);
                                        let (promoted_to, a) = spec_take(a, "promotedto"@);
                                        let (author, a) = spec_take(a, "author"@);
                                        let (contact, a) = spec_take(a, "contact"@);
                                        let (ratified, a) = spec_take(a, "ratified"@);
                                        match spec_try_get::<bool>(a, element, "provisional"@) {
                                            Err(e) => Err(e),
                                            Ok((provisional, a)) => {
                                                let (special_use, a) = spec_take(a, "specialuse"@);
                                                let (sort_order, a) = spec_take(a, "sortorder"@);
                                                let (comment, a) = spec_take(a, "comment"@);
                                                Ok(
                                                    (
                                                        ExtensionView {
                                                            name,
                                                            number,
                                                            supported_api,
                                                            extension_type,
                                                            depends,
                                                            platform,
                                                            deprecated_by,
                                                            obsoleted_by,
                                                            promoted_to,
                                                            author,
                                                            contact,
                                                            ratified,
                                                            provisional,
                                                            special_use,
                                                            sort_order,
                                                            comment,
                                                            ..acc
                                                        },
                                                        a,
                                                    ),
                                                )
                                            },
                                        }
                                    },
                                }
                            },
                        }
                    },
                }
            },
        }
    }

    open spec fn spec_child(
        acc: ExtensionView,
        reader: ReaderView,
        element: Seq<char>,
        attribs: AttribsView,
    ) -> (Result<ExtensionView, ParseErrorView>, ReaderView) {
        map_read(
            ExtensionItem::spec_read(reader, element, attribs),
            |item: ExtensionItemView| ExtensionView { items: acc.items.push(item), ..acc },
        )
    }

    open spec fn spec_text(
        acc: ExtensionView,
        text: Seq<char>,
    ) -> Result<ExtensionView, ParseErrorView> {
        Err(ParseErrorView::BadContent(Self::spec_name(), text))
    }

    fn name() -> &'static str {
        "extension"
    }

    fn empty() -> Extension {
        Extension {
            name: String::new(),
            number: String::new(),
            supported_api: no_items(),
            extension_type: None,
            depends: None,
            platform: None,
            deprecated_by: None,
            obsoleted_by: None,
            promoted_to: None,
            author: None,
            contact: None,
            ratified: None,
            provisional: None,
            special_use: None,
            sort_order: None,
            items: no_items(),
            comment: None,
        }
    }

    fn parse_attribs(&mut self, element: &str, attribs: &mut Attribs) -> (r: Result<
        (),
        ParseError,
    >) {
        self.name = attribs.req_attrib(element, "name")?;
        self.number = attribs.req_attrib(element, "number")?;
        self.supported_api = attribs.req_list(element, "supported")?;
        self.extension_type = attribs.remove("type");
        self.depends = attribs.try_get::<Depends>(element, "depends")?;
        self.platform = attribs.remove("platform");
        self.deprecated_by = attribs.remove("deprecatedby");
        self.obsoleted_by = attribs.remove("obsoletedby");
        self.promoted_to = attribs.remove("promotedto");
        self.author = attribs.remove("author");
        self.contact = attribs.remove("contact");
        self.ratified = attribs.remove("ratified");
        self.provisional = attribs.try_get::<bool>(element, "provisional")?;
        self.special_use = attribs.remove("specialuse");
        self.sort_order = attribs.remove("sortorder");
        self.comment = attribs.remove("comment");
        Ok(())
    }

    fn parse_child(
        &mut self,
        reader: &mut Reader,
        element: String,
        attribs: &mut Attribs,
    ) -> (r: Result<(), ParseError>) {
        let item = ExtensionItem::parse(reader, element, attribs)?;
        add_item(&mut self.items, item);
        Ok(())
    }

    fn parse_text(&mut self, text: String) -> (r: Result<(), ParseError>) {
        Err(ParseError::BadContent(String::from_str("extension"), text))
    }
}

/// A child of an `extension` element.
pub enum ExtensionItem {
    Comment(Comment),
    Require(Require),
    Remove(Remove),
}

/// `ExtensionItem` with its strings as character sequences.
pub ghost enum ExtensionItemView {
    Comment(CommentView),
    Require(RequireView),
    Remove(RemoveView),
}

impl DeepView for ExtensionItem {
    type V = ExtensionItemView;

    open spec fn deep_view(&self) -> ExtensionItemView {
        match *self {
            ExtensionItem::Comment(x) => ExtensionItemView::Comment(x.deep_view()),
            ExtensionItem::Require(x) => ExtensionItemView::Require(x.deep_view()),
            ExtensionItem::Remove(x) => ExtensionItemView::Remove(x.deep_view()),
        }
    }
}

impl Parse for ExtensionItem {
    open spec fn spec_read(reader: ReaderView, element: Seq<char>, attribs: AttribsView) -> (
        Result<ExtensionItemView, ParseErrorView>,
        ReaderView,
    ) {
        if element == "comment"@ {
            map_read(
                Comment::spec_read(reader, element, attribs),
                |x: CommentView| ExtensionItemView::Comment(x),
            )
        } else if element == "require"@ {
            map_read(
                Require::spec_read(reader, element, attribs),
                |x: RequireView| ExtensionItemView::Require(x),
            )
        } else if element == "remove"@ {
            map_read(
                Remove::spec_read(reader, element, attribs),
                |x: RemoveView| ExtensionItemView::Remove(x),
            )
        } else {
            (Err(ParseErrorView::BadChild("extension"@, element)), reader)
        }
    }

    fn parse(reader: &mut Reader, element: String, attribs: &mut Attribs) -> (r: Result<
        ExtensionItem,
        ParseError,
    >) {
        if str_eq(element.as_str(), "comment") {
            Ok(ExtensionItem::Comment(Comment::parse(reader, element, attribs)?))
        } else if str_eq(element.as_str(), "require") {
            Ok(ExtensionItem::Require(Require::parse(reader, element, attribs)?))
        } else if str_eq(element.as_str(), "remove") {
            Ok(ExtensionItem::Remove(Remove::parse(reader, element, attribs)?))
        } else {
            Err(ParseError::BadChild(String::from_str("extension"), element))
        }
    }
}

/// The interfaces that a feature or extension introduces.
pub struct Require {
    pub depends: Option<Depends>,
    pub api: Option<String>,
    pub items: Vec<RequireItem>,
    pub comment: Option<String>,
}

/// `Require` with its strings as character sequences.
pub ghost struct RequireView {
    pub depends: Option<DependsView>,
    pub api: Option<Seq<char>>,
    pub items: Seq<RequireItemView>,
    pub comment: Option<Seq<char>>,
}

impl DeepView for Require {
    type V = RequireView;

    open spec fn deep_view(&self) -> RequireView {
        RequireView {
            depends: self.depends.deep_view(),
            api: self.api.deep_view(),
            items: self.items.deep_view(),
            comment: self.comment.deep_view(),
        }
    }
}

impl GenericParse for Require {
    open spec fn spec_name() -> Seq<char> {
        "require"@
    }

    open spec fn spec_empty() -> RequireView {
        RequireView {
            depends: None,
            api: None,
            items: Seq::empty(),
            comment: None,
        }
    }

    open spec fn spec_attribs(acc: RequireView, element: Seq<char>, attribs: AttribsView) -> Result<
        (RequireView, AttribsView),
        ParseErrorView,
    > {
        match spec_try_get::<Depends>(attribs, element, "depends"@) {
            Err(e) => Err(e),
            Ok((depends, a)) => {
                let (api, a) = spec_take(a, "api"@);
                let (comment, a) = spec_take(a, "comment"@);
                Ok((RequireView { depends, api, comment, ..acc }, a))
            },
        }
    }

    open spec fn spec_child(
        acc: RequireView,
        reader: ReaderView,
        element: Seq<char>,
        attribs: AttribsView,
    ) -> (Result<RequireView, ParseErrorView>, ReaderView) {
        map_read(
            RequireItem::spec_read(reader, element, attribs),
            |item: RequireItemView| RequireView { items: acc.items.push(item), ..acc },
        )
    }

    open spec fn spec_text(
        acc: RequireView,
        text: Seq<char>,
    ) -> Result<RequireView, ParseErrorView> {
        Err(ParseErrorView::BadContent(Self::spec_name(), text))
    }

    fn name() -> &'static str {
        "require"
    }

    fn empty() -> Require {
        Require {
            depends: None,
            api: None,
            items: no_items(),
            comment: None,
        }
    }

    fn parse_attribs(&mut self, element: &str, attribs: &mut Attribs) -> (r: Result<
        (),
        ParseError,
    >) {
        self.depends = attribs.try_get::<Depends>(element, "depends")?;
        self.api = attribs.remove("api");
        self.comment = attribs.remove("comment");
        Ok(())
    }

    fn parse_child(
        &mut self,
        reader: &mut Reader,
        element: String,
        attribs: &mut Attribs,
    ) -> (r: Result<(), ParseError>) {
        let item = RequireItem::parse(reader, element, attribs)?;
        add_item(&mut self.items, item);
        Ok(())
    }

    fn parse_text(&mut self, text: String) -> (r: Result<(), ParseError>) {
        Err(ParseError::BadContent(String::from_str("require"), text))
    }
}

/// The interfaces that a feature or extension takes away.
pub struct Remove {
    pub reason_link: Option<String>,
    pub items: Vec<RequireItem>,
    pub comment: Option<String>,
}

/// `Remove` with its strings as character sequences.
pub ghost struct RemoveView {
    pub reason_link: Option<Seq<char>>,
    pub items: Seq<RequireItemView>,
    pub comment: Option<Seq<char>>,
}

impl DeepView for Remove {
    type V = RemoveView;

    open spec fn deep_view(&self) -> RemoveView {
        RemoveView {
            reason_link: self.reason_link.deep_view(),
            items: self.items.deep_view(),
            comment: self.comment.deep_view(),
        }
    }
}

impl GenericParse for Remove {
    open spec fn spec_name() -> Seq<char> {
        "remove"@
    }

    open spec fn spec_empty() -> RemoveView {
        RemoveView {
            reason_link: None,
            items: Seq::empty(),
            comment: None,
        }
    }

    open spec fn spec_attribs(acc: RemoveView, element: Seq<char>, attribs: AttribsView) -> Result<
        (RemoveView, AttribsView),
        ParseErrorView,
    > {
        let (reason_link, a) = spec_take(attribs, "reasonlink"@);
        let (comment, a) = spec_take(a, "comment"@);
        Ok((RemoveView { reason_link, comment, ..acc }, a))
    }

    open spec fn spec_child(
        acc: RemoveView,
        reader: ReaderView,
        element: Seq<char>,
        attribs: AttribsView,
    ) -> (Result<RemoveView, ParseErrorView>, ReaderView) {
        map_read(
            RequireItem::spec_read(reader, element, attribs),
            |item: RequireItemView| RemoveView { items: acc.items.push(item), ..acc },
        )
    }

    open spec fn spec_text(acc: RemoveView, text: Seq<char>) -> Result<RemoveView, ParseErrorView> {
        Err(ParseErrorView::BadContent(Self::spec_name(), text))
    }

    fn name() -> &'static str {
        "remove"
    }

    fn empty() -> Remove {
        Remove {
            reason_link: None,
            items: no_items(),
            comment: None,
        }
    }

    fn parse_attribs(&mut self, element: &str, attribs: &mut Attribs) -> (r: Result<
        (),
        ParseError,
    >) {
        self.reason_link = attribs.remove("reasonlink");
        self.comment = attribs.remove("comment");
        Ok(())
    }

    fn parse_child(
        &mut self,
        reader: &mut Reader,
        element: String,
        attribs: &mut Attribs,
    ) -> (r: Result<(), ParseError>) {
        let item = RequireItem::parse(reader, element, attribs)?;
        add_item(&mut self.items, item);
        Ok(())
    }

    fn parse_text(&mut self, text: String) -> (r: Result<(), ParseError>) {
        Err(ParseError::BadContent(String::from_str("remove"), text))
    }
}

/// A child of a `require` or `remove` element.
pub enum RequireItem {
    Type(RequireType),
    Enum(RequireEnum),
    Command(RequireCommand),
    Feature(RequireFeature),
    Comment(Comment),
}

/// `RequireItem` with its strings as character sequences.
pub ghost enum RequireItemView {
    Type(RequireTypeView),
    Enum(RequireEnumView),
    Command(RequireCommandView),
    Feature(RequireFeatureView),
    Comment(CommentView),
}

impl DeepView for RequireItem {
    type V = RequireItemView;

    open spec fn deep_view(&self) -> RequireItemView {
        match *self {
            RequireItem::Type(x) => RequireItemView::Type(x.deep_view()),
            RequireItem::Enum(x) => RequireItemView::Enum(x.deep_view()),
            RequireItem::Command(x) => RequireItemView::Command(x.deep_view()),
            RequireItem::Feature(x) => RequireItemView::Feature(x.deep_view()),
            RequireItem::Comment(x) => RequireItemView::Comment(x.deep_view()),
        }
    }
}

impl Parse for RequireItem {
    open spec fn spec_read(reader: ReaderView, element: Seq<char>, attribs: AttribsView) -> (
        Result<RequireItemView, ParseErrorView>,
        ReaderView,
    ) {
        if element == "type"@ {
            map_read(
                RequireType::spec_read(reader, element, attribs),
                |x: RequireTypeView| RequireItemView::Type(x),
            )
        } else if element == "enum"@ {
            map_read(
                RequireEnum::spec_read(reader, element, attribs),
                |x: RequireEnumView| RequireItemView::Enum(x),
            )
        } else if element == "command"@ {
            map_read(
                RequireCommand::spec_read(reader, element, attribs),
                |x: RequireCommandView| RequireItemView::Command(x),
            )
        } else if element == "feature"@ {
            map_read(
                RequireFeature::spec_read(reader, element, attribs),
                |x: RequireFeatureView| RequireItemView::Feature(x),
            )
        } else {
            map_read(
                Comment::spec_read(reader, element, attribs),
                |x: CommentView| RequireItemView::Comment(x),
            )
        }
    }

    fn parse(reader: &mut Reader, element: String, attribs: &mut Attribs) -> (r: Result<
        RequireItem,
        ParseError,
    >) {
        if str_eq(element.as_str(), "type") {
            Ok(RequireItem::Type(RequireType::parse(reader, element, attribs)?))
        } else if str_eq(element.as_str(), "enum") {
            Ok(RequireItem::Enum(RequireEnum::parse(reader, element, attribs)?))
        } else if str_eq(element.as_str(), "command") {
            Ok(RequireItem::Command(RequireCommand::parse(reader, element, attribs)?))
        } else if str_eq(element.as_str(), "feature") {
            Ok(RequireItem::Feature(RequireFeature::parse(reader, element, attribs)?))
        } else {
            Ok(RequireItem::Comment(Comment::parse(reader, element, attribs)?))
        }
    }
}

/// A type that is required by name.
pub struct RequireType {
    pub name: String,
    pub comment: Option<String>,
}

/// `RequireType` with its strings as character sequences.
pub ghost struct RequireTypeView {
    pub name: Seq<char>,
    pub comment: Option<Seq<char>>,
}

impl DeepView for RequireType {
    type V = RequireTypeView;

    open spec fn deep_view(&self) -> RequireTypeView {
        RequireTypeView {
            name: self.name.deep_view(),
            comment: self.comment.deep_view(),
        }
    }
}

impl GenericParse for RequireType {
    open spec fn spec_name() -> Seq<char> {
        "type"@
    }

    open spec fn spec_empty() -> RequireTypeView {
        RequireTypeView {
            name: Seq::empty(),
            comment: None,
        }
    }

    open spec fn spec_attribs(
        acc: RequireTypeView,
        element: Seq<char>,
        attribs: AttribsView,
    ) -> Result<
        (RequireTypeView, AttribsView),
        ParseErrorView,
    > {
        match spec_req(attribs, element, "name"@) {
            Err(e) => Err(e),
            Ok((name, a)) => {
                let (comment, a) = spec_take(a, "comment"@);
                Ok((RequireTypeView { name, comment }, a))
            },
        }
    }

    open spec fn spec_child(
        acc: RequireTypeView,
        reader: ReaderView,
        element: Seq<char>,
        attribs: AttribsView,
    ) -> (Result<RequireTypeView, ParseErrorView>, ReaderView) {
        (Err(ParseErrorView::BadChild(Self::spec_name(), element)), reader)
    }

    open spec fn spec_text(
        acc: RequireTypeView,
        text: Seq<char>,
    ) -> Result<RequireTypeView, ParseErrorView> {
        Err(ParseErrorView::BadContent(Self::spec_name(), text))
    }

    fn name() -> &'static str {
        "type"
    }

    fn empty() -> RequireType {
        RequireType {
            name: String::new(),
            comment: None,
        }
    }

    fn parse_attribs(&mut self, element: &str, attribs: &mut Attribs) -> (r: Result<
        (),
        ParseError,
    >) {
        self.name = attribs.req_attrib(element, "name")?;
        self.comment = attribs.remove("comment");
        Ok(())
    }

    fn parse_child(
        &mut self,
        reader: &mut Reader,
        element: String,
        attribs: &mut Attribs,
    ) -> (r: Result<(), ParseError>) {
        Err(ParseError::BadChild(String::from_str("type"), element))
    }

    fn parse_text(&mut self, text: String) -> (r: Result<(), ParseError>) {
        Err(ParseError::BadContent(String::from_str("type"), text))
    }
}

/// A required enumerant: what all kinds share, and what its kind adds.
pub struct RequireEnum {
    pub common: RequireEnumCommon,
    pub details: RequireEnumDetails,
}

/// `RequireEnum` with its strings as character sequences.
pub ghost struct RequireEnumView {
    pub common: RequireEnumCommonView,
    pub details: RequireEnumDetailsView,
}

impl DeepView for RequireEnum {
    type V = RequireEnumView;

    open spec fn deep_view(&self) -> RequireEnumView {
        RequireEnumView { common: self.common.deep_view(), details: self.details.deep_view() }
    }
}

/// What a required enumerant holds besides the common part, by kind.
pub enum RequireEnumDetails {
    Alias(RequireEnumAliasDetails),
    Offset(RequireEnumOffsetDetails),
    Bit(RequireEnumBitDetails),
    Value(RequireEnumValueDetails),
}

/// `RequireEnumDetails` with its strings as character sequences.
pub ghost enum RequireEnumDetailsView {
    Alias(RequireEnumAliasDetailsView),
    Offset(RequireEnumOffsetDetailsView),
    Bit(RequireEnumBitDetailsView),
    Value(RequireEnumValueDetailsView),
}

impl DeepView for RequireEnumDetails {
    type V = RequireEnumDetailsView;

    open spec fn deep_view(&self) -> RequireEnumDetailsView {
        match *self {
            RequireEnumDetails::Alias(x) => RequireEnumDetailsView::Alias(x.deep_view()),
            RequireEnumDetails::Offset(x) => RequireEnumDetailsView::Offset(x.deep_view()),
            RequireEnumDetails::Bit(x) => RequireEnumDetailsView::Bit(x.deep_view()),
            RequireEnumDetails::Value(x) => RequireEnumDetailsView::Value(x.deep_view()),
        }
    }
}

impl Parse for RequireEnum {
    open spec fn spec_read(reader: ReaderView, element: Seq<char>, attribs: AttribsView) -> (
        Result<RequireEnumView, ParseErrorView>,
        ReaderView,
    ) {
        if attr_get(attribs, "alias"@) is Some {
            map_read(
                RequireEnumAlias::spec_read(reader, element, attribs),
                |x: RequireEnumAliasView| RequireEnumView {
                    common: x.common,
                    details: RequireEnumDetailsView::Alias(x.details),
                },
            )
        } else if attr_get(attribs, "offset"@) is Some {
            map_read(
                RequireEnumOffset::spec_read(reader, element, attribs),
                |x: RequireEnumOffsetView| RequireEnumView {
                    common: x.common,
                    details: RequireEnumDetailsView::Offset(x.details),
                },
            )
        } else if attr_get(attribs, "bitpos"@) is Some {
            map_read(
                RequireEnumBit::spec_read(reader, element, attribs),
                |x: RequireEnumBitView| RequireEnumView {
                    common: x.common,
                    details: RequireEnumDetailsView::Bit(x.details),
                },
            )
        } else {
            map_read(
                RequireEnumValue::spec_read(reader, element, attribs),
                |x: RequireEnumValueView| RequireEnumView {
                    common: x.common,
                    details: RequireEnumDetailsView::Value(x.details),
                },
            )
        }
    }

    fn parse(reader: &mut Reader, element: String, attribs: &mut Attribs) -> (r: Result<
        RequireEnum,
        ParseError,
    >) {
        if attribs.contains_key("alias") {
            Ok(RequireEnumAlias::parse(reader, element, attribs)?.into_require_enum())
        } else if attribs.contains_key("offset") {
            Ok(RequireEnumOffset::parse(reader, element, attribs)?.into_require_enum())
        } else if attribs.contains_key("bitpos") {
            Ok(RequireEnumBit::parse(reader, element, attribs)?.into_require_enum())
        } else {
            Ok(RequireEnumValue::parse(reader, element, attribs)?.into_require_enum())
        }
    }
}

impl RequireEnumAlias {
    /// This element as a `RequireEnum`.
    pub fn into_require_enum(self) -> (r: RequireEnum)
        ensures
            r == (
                RequireEnum {
                    common: self.common,
                    details: RequireEnumDetails::Alias(self.details),
                }
            ),
    {
        let RequireEnumAlias { common, details } = self;
        RequireEnum { common, details: RequireEnumDetails::Alias(details) }
    }
}

impl RequireEnumOffset {
    /// This element as a `RequireEnum`.
    pub fn into_require_enum(self) -> (r: RequireEnum)
        ensures
            r == (
                RequireEnum {
                    common: self.common,
                    details: RequireEnumDetails::Offset(self.details),
                }
            ),
    {
        let RequireEnumOffset { common, details } = self;
        RequireEnum { common, details: RequireEnumDetails::Offset(details) }
    }
}

impl RequireEnumBit {
    /// This element as a `RequireEnum`.
    pub fn into_require_enum(self) -> (r: RequireEnum)
        ensures
            r == (
                RequireEnum { common: self.common, details: RequireEnumDetails::Bit(self.details) }
            ),
    {
        let RequireEnumBit { common, details } = self;
        RequireEnum { common, details: RequireEnumDetails::Bit(details) }
    }
}

impl RequireEnumValue {
    /// This element as a `RequireEnum`.
    pub fn into_require_enum(self) -> (r: RequireEnum)
        ensures
            r == (
                RequireEnum {
                    common: self.common,
                    details: RequireEnumDetails::Value(self.details),
                }
            ),
    {
        let RequireEnumValue { common, details } = self;
        RequireEnum { common, details: RequireEnumDetails::Value(details) }
    }
}

/// What every required enumerant holds.
pub struct RequireEnumCommon {
    pub name: String,
    pub extends: Option<String>,
    pub deprecated: Option<Deprecation>,
    pub api: Option<Vec<String>>,
    pub protect: Option<String>,
    pub comment: Option<String>,
}

/// `RequireEnumCommon` with its strings as character sequences.
pub ghost struct RequireEnumCommonView {
    pub name: Seq<char>,
    pub extends: Option<Seq<char>>,
    pub deprecated: Option<Deprecation>,
    pub api: Option<Seq<Seq<char>>>,
    pub protect: Option<Seq<char>>,
    pub comment: Option<Seq<char>>,
}

impl DeepView for RequireEnumCommon {
    type V = RequireEnumCommonView;

    open spec fn deep_view(&self) -> RequireEnumCommonView {
        RequireEnumCommonView {
            name: self.name.deep_view(),
            extends: self.extends.deep_view(),
            deprecated: self.deprecated.deep_view(),
            api: self.api.deep_view(),
            protect: self.protect.deep_view(),
            comment: self.comment.deep_view(),
        }
    }
}

impl RequireEnumCommon {
    /// The value before anything is read.
    pub open spec fn spec_empty() -> RequireEnumCommonView {
        RequireEnumCommonView {
            name: Seq::empty(),
            extends: None,
            deprecated: None,
            api: None,
            protect: None,
            comment: None,
        }
    }

    /// An empty value, to be filled in by the parser.
    pub fn empty() -> (r: RequireEnumCommon)
        ensures
            r.deep_view() == Self::spec_empty(),
    {
        RequireEnumCommon {
            name: String::new(),
            extends: None,
            deprecated: None,
            api: None,
            protect: None,
            comment: None,
        }
    }

    /// The value and the attribute map after the attributes of this part have been taken.
    pub open spec fn spec_attribs(
        acc: RequireEnumCommonView,
        element: Seq<char>,
        attribs: AttribsView,
    ) -> Result<
        (RequireEnumCommonView, AttribsView),
        ParseErrorView,
    > {
        match spec_req(attribs, element, "name"@) {
            Err(e) => Err(e),
            Ok((name, a)) => {
                let (extends, a) = spec_take(a, "extends"@);
                match spec_try_get::<Deprecation>(a, element, "deprecated"@) {
                    Err(e) => Err(e),
                    Ok((deprecated, a)) => {
                        let (api, a) = spec_take_list(a, "api"@);
                        let (protect, a) = spec_take(a, "protect"@);
                        let (comment, a) = spec_take(a, "comment"@);
                        Ok(
                            (
                                RequireEnumCommonView {
                                    name,
                                    extends,
                                    deprecated,
                                    api,
                                    protect,
                                    comment,
                                },
                                a,
                            ),
                        )
                    },
                }
            },
        }
    }

    /// Takes the attributes of this part from the map.
    pub fn parse_attribs(&mut self, element: &str, attribs: &mut Attribs) -> (r: Result<
        (),
        ParseError,
    >)
        ensures
            match Self::spec_attribs(old(self).deep_view(), element@, old(attribs).deep_view()) {
                Ok((acc, rest)) => r is Ok && final(self).deep_view() == acc
                    && final(attribs).deep_view() == rest,
                Err(e) => r is Err && r->Err_0.deep_view() == e,
            },
    {
        self.name = attribs.req_attrib(element, "name")?;
        self.extends = attribs.remove("extends");
        self.deprecated = attribs.try_get::<Deprecation>(element, "deprecated")?;
        self.api = attribs.remove_list("api");
        self.protect = attribs.remove("protect");
        self.comment = attribs.remove("comment");
        Ok(())
    }
}

/// A required enumerant: one that exists already, or a new one with its value.
pub struct RequireEnumValue {
    pub common: RequireEnumCommon,
    pub details: RequireEnumValueDetails,
}

/// `RequireEnumValue` with its strings as character sequences.
pub ghost struct RequireEnumValueView {
    pub common: RequireEnumCommonView,
    pub details: RequireEnumValueDetailsView,
}

impl DeepView for RequireEnumValue {
    type V = RequireEnumValueView;

    open spec fn deep_view(&self) -> RequireEnumValueView {
        RequireEnumValueView {
            common: self.common.deep_view(),
            details: self.details.deep_view(),
        }
    }
}

impl GenericParse for RequireEnumValue {
    open spec fn spec_name() -> Seq<char> {
        "enum"@
    }

    open spec fn spec_empty() -> RequireEnumValueView {
        RequireEnumValueView {
            common: RequireEnumCommon::spec_empty(),
            details: RequireEnumValueDetails::spec_empty(),
        }
    }

    open spec fn spec_attribs(
        acc: RequireEnumValueView,
        element: Seq<char>,
        attribs: AttribsView,
    ) -> Result<
        (RequireEnumValueView, AttribsView),
        ParseErrorView,
    > {
        match RequireEnumCommon::spec_attribs(acc.common, element, attribs) {
            Err(e) => Err(e),
            Ok((common, a)) => {
                match RequireEnumValueDetails::spec_attribs(acc.details, element, a) {
                    Err(e) => Err(e),
                    Ok((details, a)) => {
                        Ok((RequireEnumValueView { common, details }, a))
                    },
                }
            },
        }
    }

    open spec fn spec_child(
        acc: RequireEnumValueView,
        reader: ReaderView,
        element: Seq<char>,
        attribs: AttribsView,
    ) -> (Result<RequireEnumValueView, ParseErrorView>, ReaderView) {
        (Err(ParseErrorView::BadChild(Self::spec_name(), element)), reader)
    }

    open spec fn spec_text(
        acc: RequireEnumValueView,
        text: Seq<char>,
    ) -> Result<RequireEnumValueView, ParseErrorView> {
        Err(ParseErrorView::BadContent(Self::spec_name(), text))
    }

    fn name() -> &'static str {
        "enum"
    }

    fn empty() -> RequireEnumValue {
        RequireEnumValue {
            common: RequireEnumCommon::empty(),
            details: RequireEnumValueDetails::empty(),
        }
    }

    fn parse_attribs(&mut self, element: &str, attribs: &mut Attribs) -> (r: Result<
        (),
        ParseError,
    >) {
        self.common.parse_attribs(element, attribs)?;
        self.details.parse_attribs(element, attribs)?;
        Ok(())
    }

    fn parse_child(
        &mut self,
        reader: &mut Reader,
        element: String,
        attribs: &mut Attribs,
    ) -> (r: Result<(), ParseError>) {
        Err(ParseError::BadChild(String::from_str("enum"), element))
    }

    fn parse_text(&mut self, text: String) -> (r: Result<(), ParseError>) {
        Err(ParseError::BadContent(String::from_str("enum"), text))
    }
}

/// The value of a required enumerant, if it is a new one.
pub struct RequireEnumValueDetails {
    pub value: Option<String>,
}

/// `RequireEnumValueDetails` with its strings as character sequences.
pub ghost struct RequireEnumValueDetailsView {
    pub value: Option<Seq<char>>,
}

impl DeepView for RequireEnumValueDetails {
    type V = RequireEnumValueDetailsView;

    open spec fn deep_view(&self) -> RequireEnumValueDetailsView {
        RequireEnumValueDetailsView {
            value: self.value.deep_view(),
        }
    }
}

impl RequireEnumValueDetails {
    /// The value before anything is read.
    pub open spec fn spec_empty() -> RequireEnumValueDetailsView {
        RequireEnumValueDetailsView {
            value: None,
        }
    }

    /// An empty value, to be filled in by the parser.
    pub fn empty() -> (r: RequireEnumValueDetails)
        ensures
            r.deep_view() == Self::spec_empty(),
    {
        RequireEnumValueDetails {
            value: None,
        }
    }

    /// The value and the attribute map after the attributes of this part have been taken.
    pub open spec fn spec_attribs(
        acc: RequireEnumValueDetailsView,
        element: Seq<char>,
        attribs: AttribsView,
    ) -> Result<
        (RequireEnumValueDetailsView, AttribsView),
        ParseErrorView,
    > {
        let (value, a) = spec_take(attribs, "value"@);
        Ok((RequireEnumValueDetailsView { value }, a))
    }

    /// Takes the attributes of this part from the map.
    pub fn parse_attribs(&mut self, element: &str, attribs: &mut Attribs) -> (r: Result<
        (),
        ParseError,
    >)
        ensures
            match Self::spec_attribs(old(self).deep_view(), element@, old(attribs).deep_view()) {
                Ok((acc, rest)) => r is Ok && final(self).deep_view() == acc
                    && final(attribs).deep_view() == rest,
                Err(e) => r is Err && r->Err_0.deep_view() == e,
            },
    {
        self.value = attribs.remove("value");
        Ok(())
    }
}

/// A required enumerant whose value is an offset into the range of an extension.
pub struct RequireEnumOffset {
    pub common: RequireEnumCommon,
    pub details: RequireEnumOffsetDetails,
}

/// `RequireEnumOffset` with its strings as character sequences.
pub ghost struct RequireEnumOffsetView {
    pub common: RequireEnumCommonView,
    pub details: RequireEnumOffsetDetailsView,
}

impl DeepView for RequireEnumOffset {
    type V = RequireEnumOffsetView;

    open spec fn deep_view(&self) -> RequireEnumOffsetView {
        RequireEnumOffsetView {
            common: self.common.deep_view(),
            details: self.details.deep_view(),
        }
    }
}

impl GenericParse for RequireEnumOffset {
    open spec fn spec_name() -> Seq<char> {
        "enum"@
    }

    open spec fn spec_empty() -> RequireEnumOffsetView {
        RequireEnumOffsetView {
            common: RequireEnumCommon::spec_empty(),
            details: RequireEnumOffsetDetails::spec_empty(),
        }
    }

    open spec fn spec_attribs(
        acc: RequireEnumOffsetView,
        element: Seq<char>,
        attribs: AttribsView,
    ) -> Result<
        (RequireEnumOffsetView, AttribsView),
        ParseErrorView,
    > {
        match RequireEnumCommon::spec_attribs(acc.common, element, attribs) {
            Err(e) => Err(e),
            Ok((common, a)) => {
                match RequireEnumOffsetDetails::spec_attribs(acc.details, element, a) {
                    Err(e) => Err(e),
                    Ok((details, a)) => {
                        Ok((RequireEnumOffsetView { common, details }, a))
                    },
                }
            },
        }
    }

    open spec fn spec_child(
        acc: RequireEnumOffsetView,
        reader: ReaderView,
        element: Seq<char>,
        attribs: AttribsView,
    ) -> (Result<RequireEnumOffsetView, ParseErrorView>, ReaderView) {
        (Err(ParseErrorView::BadChild(Self::spec_name(), element)), reader)
    }

    open spec fn spec_text(
        acc: RequireEnumOffsetView,
        text: Seq<char>,
    ) -> Result<RequireEnumOffsetView, ParseErrorView> {
        Err(ParseErrorView::BadContent(Self::spec_name(), text))
    }

    fn name() -> &'static str {
        "enum"
    }

    fn empty() -> RequireEnumOffset {
        RequireEnumOffset {
            common: RequireEnumCommon::empty(),
            details: RequireEnumOffsetDetails::empty(),
        }
    }

    fn parse_attribs(&mut self, element: &str, attribs: &mut Attribs) -> (r: Result<
        (),
        ParseError,
    >) {
        self.common.parse_attribs(element, attribs)?;
        self.details.parse_attribs(element, attribs)?;
        Ok(())
    }

    fn parse_child(
        &mut self,
        reader: &mut Reader,
        element: String,
        attribs: &mut Attribs,
    ) -> (r: Result<(), ParseError>) {
        Err(ParseError::BadChild(String::from_str("enum"), element))
    }

    fn parse_text(&mut self, text: String) -> (r: Result<(), ParseError>) {
        Err(ParseError::BadContent(String::from_str("enum"), text))
    }
}

/// The offset of an enumerant, the extension whose range it counts in, and its sign.
pub struct RequireEnumOffsetDetails {
    pub ext_number: Option<String>,
    pub offset: String,
    pub dir: Option<Dir>,
}

/// `RequireEnumOffsetDetails` with its strings as character sequences.
pub ghost struct RequireEnumOffsetDetailsView {
    pub ext_number: Option<Seq<char>>,
    pub offset: Seq<char>,
    pub dir: Option<Dir>,
}

impl DeepView for RequireEnumOffsetDetails {
    type V = RequireEnumOffsetDetailsView;

    open spec fn deep_view(&self) -> RequireEnumOffsetDetailsView {
        RequireEnumOffsetDetailsView {
            ext_number: self.ext_number.deep_view(),
            offset: self.offset.deep_view(),
            dir: self.dir.deep_view(),
        }
    }
}

impl RequireEnumOffsetDetails {
    /// The value before anything is read.
    pub open spec fn spec_empty() -> RequireEnumOffsetDetailsView {
        RequireEnumOffsetDetailsView {
            ext_number: None,
            offset: Seq::empty(),
            dir: None,
        }
    }

    /// An empty value, to be filled in by the parser.
    pub fn empty() -> (r: RequireEnumOffsetDetails)
        ensures
            r.deep_view() == Self::spec_empty(),
    {
        RequireEnumOffsetDetails {
            ext_number: None,
            offset: String::new(),
            dir: None,
        }
    }

    /// The value and the attribute map after the attributes of this part have been taken.
    pub open spec fn spec_attribs(
        acc: RequireEnumOffsetDetailsView,
        element: Seq<char>,
        attribs: AttribsView,
    ) -> Result<
        (RequireEnumOffsetDetailsView, AttribsView),
        ParseErrorView,
    > {
        let (ext_number, a) = spec_take(attribs, "extnumber"@);
        match spec_req(a, element, "offset"@) {
            Err(e) => Err(e),
            Ok((offset, a)) => {
                match spec_try_get::<Dir>(a, element, "dir"@) {
                    Err(e) => Err(e),
                    Ok((dir, a)) => {
                        Ok((RequireEnumOffsetDetailsView { ext_number, offset, dir }, a))
                    },
                }
            },
        }
    }

    /// Takes the attributes of this part from the map.
    pub fn parse_attribs(&mut self, element: &str, attribs: &mut Attribs) -> (r: Result<
        (),
        ParseError,
    >)
        ensures
            match Self::spec_attribs(old(self).deep_view(), element@, old(attribs).deep_view()) {
                Ok((acc, rest)) => r is Ok && final(self).deep_view() == acc
                    && final(attribs).deep_view() == rest,
                Err(e) => r is Err && r->Err_0.deep_view() == e,
            },
    {
        self.ext_number = attribs.remove("extnumber");
        self.offset = attribs.req_attrib(element, "offset")?;
        self.dir = attribs.try_get::<Dir>(element, "dir")?;
        Ok(())
    }
}

/// A required enumerant that is one bit of a mask.
pub struct RequireEnumBit {
    pub common: RequireEnumCommon,
    pub details: RequireEnumBitDetails,
}

/// `RequireEnumBit` with its strings as character sequences.
pub ghost struct RequireEnumBitView {
    pub common: RequireEnumCommonView,
    pub details: RequireEnumBitDetailsView,
}

impl DeepView for RequireEnumBit {
    type V = RequireEnumBitView;

    open spec fn deep_view(&self) -> RequireEnumBitView {
        RequireEnumBitView {
            common: self.common.deep_view(),
            details: self.details.deep_view(),
        }
    }
}

impl GenericParse for RequireEnumBit {
    open spec fn spec_name() -> Seq<char> {
        "enum"@
    }

    open spec fn spec_empty() -> RequireEnumBitView {
        RequireEnumBitView {
            common: RequireEnumCommon::spec_empty(),
            details: RequireEnumBitDetails::spec_empty(),
        }
    }

    open spec fn spec_attribs(
        acc: RequireEnumBitView,
        element: Seq<char>,
        attribs: AttribsView,
    ) -> Result<
        (RequireEnumBitView, AttribsView),
        ParseErrorView,
    > {
        match RequireEnumCommon::spec_attribs(acc.common, element, attribs) {
            Err(e) => Err(e),
            Ok((common, a)) => {
                match RequireEnumBitDetails::spec_attribs(acc.details, element, a) {
                    Err(e) => Err(e),
                    Ok((details, a)) => {
                        Ok((RequireEnumBitView { common, details }, a))
                    },
                }
            },
        }
    }

    open spec fn spec_child(
        acc: RequireEnumBitView,
        reader: ReaderView,
        element: Seq<char>,
        attribs: AttribsView,
    ) -> (Result<RequireEnumBitView, ParseErrorView>, ReaderView) {
        (Err(ParseErrorView::BadChild(Self::spec_name(), element)), reader)
    }

    open spec fn spec_text(
        acc: RequireEnumBitView,
        text: Seq<char>,
    ) -> Result<RequireEnumBitView, ParseErrorView> {
        Err(ParseErrorView::BadContent(Self::spec_name(), text))
    }

    fn name() -> &'static str {
        "enum"
    }

    fn empty() -> RequireEnumBit {
        RequireEnumBit {
            common: RequireEnumCommon::empty(),
            details: RequireEnumBitDetails::empty(),
        }
    }

    fn parse_attribs(&mut self, element: &str, attribs: &mut Attribs) -> (r: Result<
        (),
        ParseError,
    >) {
        self.common.parse_attribs(element, attribs)?;
        self.details.parse_attribs(element, attribs)?;
        Ok(())
    }

    fn parse_child(
        &mut self,
        reader: &mut Reader,
        element: String,
        attribs: &mut Attribs,
    ) -> (r: Result<(), ParseError>) {
        Err(ParseError::BadChild(String::from_str("enum"), element))
    }

    fn parse_text(&mut self, text: String) -> (r: Result<(), ParseError>) {
        Err(ParseError::BadContent(String::from_str("enum"), text))
    }
}

/// The bit position of a required flag.
pub struct RequireEnumBitDetails {
    pub ext_number: Option<String>,
    pub bit_pos: String,
}

/// `RequireEnumBitDetails` with its strings as character sequences.
pub ghost struct RequireEnumBitDetailsView {
    pub ext_number: Option<Seq<char>>,
    pub bit_pos: Seq<char>,
}

impl DeepView for RequireEnumBitDetails {
    type V = RequireEnumBitDetailsView;

    open spec fn deep_view(&self) -> RequireEnumBitDetailsView {
        RequireEnumBitDetailsView {
            ext_number: self.ext_number.deep_view(),
            bit_pos: self.bit_pos.deep_view(),
        }
    }
}

impl RequireEnumBitDetails {
    /// The value before anything is read.
    pub open spec fn spec_empty() -> RequireEnumBitDetailsView {
        RequireEnumBitDetailsView {
            ext_number: None,
            bit_pos: Seq::empty(),
        }
    }

    /// An empty value, to be filled in by the parser.
    pub fn empty() -> (r: RequireEnumBitDetails)
        ensures
            r.deep_view() == Self::spec_empty(),
    {
        RequireEnumBitDetails {
            ext_number: None,
            bit_pos: String::new(),
        }
    }

    /// The value and the attribute map after the attributes of this part have been taken.
    pub open spec fn spec_attribs(
        acc: RequireEnumBitDetailsView,
        element: Seq<char>,
        attribs: AttribsView,
    ) -> Result<
        (RequireEnumBitDetailsView, AttribsView),
        ParseErrorView,
    > {
        let (ext_number, a) = spec_take(attribs, "extnumber"@);
        match spec_req(a, element, "bitpos"@) {
            Err(e) => Err(e),
            Ok((bit_pos, a)) => {
                Ok((RequireEnumBitDetailsView { ext_number, bit_pos }, a))
            },
        }
    }

    /// Takes the attributes of this part from the map.
    pub fn parse_attribs(&mut self, element: &str, attribs: &mut Attribs) -> (r: Result<
        (),
        ParseError,
    >)
        ensures
            match Self::spec_attribs(old(self).deep_view(), element@, old(attribs).deep_view()) {
                Ok((acc, rest)) => r is Ok && final(self).deep_view() == acc
                    && final(attribs).deep_view() == rest,
                Err(e) => r is Err && r->Err_0.deep_view() == e,
            },
    {
        self.ext_number = attribs.remove("extnumber");
        self.bit_pos = attribs.req_attrib(element, "bitpos")?;
        Ok(())
    }
}

/// A required enumerant that is another name for an enumerant.
pub struct RequireEnumAlias {
    pub common: RequireEnumCommon,
    pub details: RequireEnumAliasDetails,
}

/// `RequireEnumAlias` with its strings as character sequences.
pub ghost struct RequireEnumAliasView {
    pub common: RequireEnumCommonView,
    pub details: RequireEnumAliasDetailsView,
}

impl DeepView for RequireEnumAlias {
    type V = RequireEnumAliasView;

    open spec fn deep_view(&self) -> RequireEnumAliasView {
        RequireEnumAliasView {
            common: self.common.deep_view(),
            details: self.details.deep_view(),
        }
    }
}

impl GenericParse for RequireEnumAlias {
    open spec fn spec_name() -> Seq<char> {
        "enum"@
    }

    open spec fn spec_empty() -> RequireEnumAliasView {
        RequireEnumAliasView {
            common: RequireEnumCommon::spec_empty(),
            details: RequireEnumAliasDetails::spec_empty(),
        }
    }

    open spec fn spec_attribs(
        acc: RequireEnumAliasView,
        element: Seq<char>,
        attribs: AttribsView,
    ) -> Result<
        (RequireEnumAliasView, AttribsView),
        ParseErrorView,
    > {
        match RequireEnumCommon::spec_attribs(acc.common, element, attribs) {
            Err(e) => Err(e),
            Ok((common, a)) => {
                match RequireEnumAliasDetails::spec_attribs(acc.details, element, a) {
                    Err(e) => Err(e),
                    Ok((details, a)) => {
                        Ok((RequireEnumAliasView { common, details }, a))
                    },
                }
            },
        }
    }

    open spec fn spec_child(
        acc: RequireEnumAliasView,
        reader: ReaderView,
        element: Seq<char>,
        attribs: AttribsView,
    ) -> (Result<RequireEnumAliasView, ParseErrorView>, ReaderView) {
        (Err(ParseErrorView::BadChild(Self::spec_name(), element)), reader)
    }

    open spec fn spec_text(
        acc: RequireEnumAliasView,
        text: Seq<char>,
    ) -> Result<RequireEnumAliasView, ParseErrorView> {
        Err(ParseErrorView::BadContent(Self::spec_name(), text))
    }

    fn name() -> &'static str {
        "enum"
    }

    fn empty() -> RequireEnumAlias {
        RequireEnumAlias {
            common: RequireEnumCommon::empty(),
            details: RequireEnumAliasDetails::empty(),
        }
    }

    fn parse_attribs(&mut self, element: &str, attribs: &mut Attribs) -> (r: Result<
        (),
        ParseError,
    >) {
        self.common.parse_attribs(element, attribs)?;
        self.details.parse_attribs(element, attribs)?;
        Ok(())
    }

    fn parse_child(
        &mut self,
        reader: &mut Reader,
        element: String,
        attribs: &mut Attribs,
    ) -> (r: Result<(), ParseError>) {
        Err(ParseError::BadChild(String::from_str("enum"), element))
    }

    fn parse_text(&mut self, text: String) -> (r: Result<(), ParseError>) {
        Err(ParseError::BadContent(String::from_str("enum"), text))
    }
}

/// The enumerant that a required alias stands for.
pub struct RequireEnumAliasDetails {
    pub alias: String,
}

/// `RequireEnumAliasDetails` with its strings as character sequences.
pub ghost struct RequireEnumAliasDetailsView {
    pub alias: Seq<char>,
}

impl DeepView for RequireEnumAliasDetails {
    type V = RequireEnumAliasDetailsView;

    open spec fn deep_view(&self) -> RequireEnumAliasDetailsView {
        RequireEnumAliasDetailsView {
            alias: self.alias.deep_view(),
        }
    }
}

impl RequireEnumAliasDetails {
    /// The value before anything is read.
    pub open spec fn spec_empty() -> RequireEnumAliasDetailsView {
        RequireEnumAliasDetailsView {
            alias: Seq::empty(),
        }
    }

    /// An empty value, to be filled in by the parser.
    pub fn empty() -> (r: RequireEnumAliasDetails)
        ensures
            r.deep_view() == Self::spec_empty(),
    {
        RequireEnumAliasDetails {
            alias: String::new(),
        }
    }

    /// The value and the attribute map after the attributes of this part have been taken.
    pub open spec fn spec_attribs(
        acc: RequireEnumAliasDetailsView,
        element: Seq<char>,
        attribs: AttribsView,
    ) -> Result<
        (RequireEnumAliasDetailsView, AttribsView),
        ParseErrorView,
    > {
        match spec_req(attribs, element, "alias"@) {
            Err(e) => Err(e),
            Ok((alias, a)) => {
                Ok((RequireEnumAliasDetailsView { alias }, a))
            },
        }
    }

    /// Takes the attributes of this part from the map.
    pub fn parse_attribs(&mut self, element: &str, attribs: &mut Attribs) -> (r: Result<
        (),
        ParseError,
    >)
        ensures
            match Self::spec_attribs(old(self).deep_view(), element@, old(attribs).deep_view()) {
                Ok((acc, rest)) => r is Ok && final(self).deep_view() == acc
                    && final(attribs).deep_view() == rest,
                Err(e) => r is Err && r->Err_0.deep_view() == e,
            },
    {
        self.alias = attribs.req_attrib(element, "alias")?;
        Ok(())
    }
}

/// A command that is required by name.
pub struct RequireCommand {
    pub name: String,
    pub comment: Option<String>,
}

/// `RequireCommand` with its strings as character sequences.
pub ghost struct RequireCommandView {
    pub name: Seq<char>,
    pub comment: Option<Seq<char>>,
}

impl DeepView for RequireCommand {
    type V = RequireCommandView;

    open spec fn deep_view(&self) -> RequireCommandView {
        RequireCommandView {
            name: self.name.deep_view(),
            comment: self.comment.deep_view(),
        }
    }
}

impl GenericParse for RequireCommand {
    open spec fn spec_name() -> Seq<char> {
        "command"@
    }

    open spec fn spec_empty() -> RequireCommandView {
        RequireCommandView {
            name: Seq::empty(),
            comment: None,
        }
    }

    open spec fn spec_attribs(
        acc: RequireCommandView,
        element: Seq<char>,
        attribs: AttribsView,
    ) -> Result<
        (RequireCommandView, AttribsView),
        ParseErrorView,
    > {
        match spec_req(attribs, element, "name"@) {
            Err(e) => Err(e),
            Ok((name, a)) => {
                let (comment, a) = spec_take(a, "comment"@);
                Ok((RequireCommandView { name, comment }, a))
            },
        }
    }

    open spec fn spec_child(
        acc: RequireCommandView,
        reader: ReaderView,
        element: Seq<char>,
        attribs: AttribsView,
    ) -> (Result<RequireCommandView, ParseErrorView>, ReaderView) {
        (Err(ParseErrorView::BadChild(Self::spec_name(), element)), reader)
    }

    open spec fn spec_text(
        acc: RequireCommandView,
        text: Seq<char>,
    ) -> Result<RequireCommandView, ParseErrorView> {
        Err(ParseErrorView::BadContent(Self::spec_name(), text))
    }

    fn name() -> &'static str {
        "command"
    }

    fn empty() -> RequireCommand {
        RequireCommand {
            name: String::new(),
            comment: None,
        }
    }

    fn parse_attribs(&mut self, element: &str, attribs: &mut Attribs) -> (r: Result<
        (),
        ParseError,
    >) {
        self.name = attribs.req_attrib(element, "name")?;
        self.comment = attribs.remove("comment");
        Ok(())
    }

    fn parse_child(
        &mut self,
        reader: &mut Reader,
        element: String,
        attribs: &mut Attribs,
    ) -> (r: Result<(), ParseError>) {
        Err(ParseError::BadChild(String::from_str("command"), element))
    }

    fn parse_text(&mut self, text: String) -> (r: Result<(), ParseError>) {
        Err(ParseError::BadContent(String::from_str("command"), text))
    }
}

/// A member of a feature structure that is required.
pub struct RequireFeature {
    pub name: String,
    pub struct_name: String,
    pub comment: Option<String>,
}

/// `RequireFeature` with its strings as character sequences.
pub ghost struct RequireFeatureView {
    pub name: Seq<char>,
    pub struct_name: Seq<char>,
    pub comment: Option<Seq<char>>,
}

impl DeepView for RequireFeature {
    type V = RequireFeatureView;

    open spec fn deep_view(&self) -> RequireFeatureView {
        RequireFeatureView {
            name: self.name.deep_view(),
            struct_name: self.struct_name.deep_view(),
            comment: self.comment.deep_view(),
        }
    }
}

impl GenericParse for RequireFeature {
    open spec fn spec_name() -> Seq<char> {
        "feature"@
    }

    open spec fn spec_empty() -> RequireFeatureView {
        RequireFeatureView {
            name: Seq::empty(),
            struct_name: Seq::empty(),
            comment: None,
        }
    }

    open spec fn spec_attribs(
        acc: RequireFeatureView,
        element: Seq<char>,
        attribs: AttribsView,
    ) -> Result<
        (RequireFeatureView, AttribsView),
        ParseErrorView,
    > {
        match spec_req(attribs, element, "name"@) {
            Err(e) => Err(e),
            Ok((name, a)) => {
                match spec_req(a, element, "struct"@) {
                    Err(e) => Err(e),
                    Ok((struct_name, a)) => {
                        let (comment, a) = spec_take(a, "comment"@);
                        Ok((RequireFeatureView { name, struct_name, comment }, a))
                    },
                }
            },
        }
    }

    open spec fn spec_child(
        acc: RequireFeatureView,
        reader: ReaderView,
        element: Seq<char>,
        attribs: AttribsView,
    ) -> (Result<RequireFeatureView, ParseErrorView>, ReaderView) {
        (Err(ParseErrorView::BadChild(Self::spec_name(), element)), reader)
    }

    open spec fn spec_text(
        acc: RequireFeatureView,
        text: Seq<char>,
    ) -> Result<RequireFeatureView, ParseErrorView> {
        Err(ParseErrorView::BadContent(Self::spec_name(), text))
    }

    fn name() -> &'static str {
        "feature"
    }

    fn empty() -> RequireFeature {
        RequireFeature {
            name: String::new(),
            struct_name: String::new(),
            comment: None,
        }
    }

    fn parse_attribs(&mut self, element: &str, attribs: &mut Attribs) -> (r: Result<
        (),
        ParseError,
    >) {
        self.name = attribs.req_attrib(element, "name")?;
        self.struct_name = attribs.req_attrib(element, "struct")?;
        self.comment = attribs.remove("comment");
        Ok(())
    }

    fn parse_child(
        &mut self,
        reader: &mut Reader,
        element: String,
        attribs: &mut Attribs,
    ) -> (r: Result<(), ParseError>) {
        Err(ParseError::BadChild(String::from_str("feature"), element))
    }

    fn parse_text(&mut self, text: String) -> (r: Result<(), ParseError>) {
        Err(ParseError::BadContent(String::from_str("feature"), text))
    }
}

} // verus!
