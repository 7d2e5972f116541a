//! The `sync` element: pipeline stages, access types and pipelines.

use vstd::prelude::*;
use vstd::string::*;
use crate::attribs::Attribs;
use crate::attribs::AttribsView;
use crate::attribs::spec_req;
use crate::attribs::spec_req_list;
use crate::attribs::spec_take;
use crate::attribs::spec_try_get;
use crate::error::ParseError;
use crate::error::ParseErrorView;
use crate::parse::depends::Depends;
use crate::parse::depends::DependsView;
use crate::parse::protocol::GenericParse;
use crate::parse::protocol::Parse;
use crate::parse::protocol::Reader;
use crate::parse::protocol::ReaderView;
use crate::parse::protocol::add_item;
use crate::parse::protocol::map_read;
use crate::parse::protocol::no_items;
use crate::parse::registry::Comment;
use crate::parse::registry::CommentView;
use crate::text::str_eq;

verus! {

/// The `sync` element: stages, accesses and pipelines of synchronisation.
pub struct Sync {
    pub items: Vec<SyncItem>,
    pub comment: Option<String>,
}

/// `Sync` with its strings as character sequences.
pub ghost struct SyncView {
    pub items: Seq<SyncItemView>,
    pub comment: Option<Seq<char>>,
}

impl DeepView for Sync {
    type V = SyncView;

    open spec fn deep_view(&self) -> SyncView {
        SyncView {
            items: self.items.deep_view(),
            comment: self.comment.deep_view(),
        }
    }
}

impl GenericParse for Sync {
    open spec fn spec_name() -> Seq<char> {
        "sync"@
    }

    open spec fn spec_empty() -> SyncView {
        SyncView {
            items: Seq::empty(),
            comment: None,
        }
    }

    open spec fn spec_attribs(acc: SyncView, element: Seq<char>, attribs: AttribsView) -> Result<
        (SyncView, AttribsView),
        ParseErrorView,
    > {
        let (comment, a) = spec_take(attribs, "comment"@);
        Ok((SyncView { comment, ..acc }, a))
    }

    open spec fn spec_child(
        acc: SyncView,
        reader: ReaderView,
        element: Seq<char>,
        attribs: AttribsView,
    ) -> (Result<SyncView, ParseErrorView>, ReaderView) {
        map_read(
            SyncItem::spec_read(reader, element, attribs),
            |item: SyncItemView| SyncView { items: acc.items.push(item), ..acc },
        )
    }

    open spec fn spec_text(acc: SyncView, text: Seq<char>) -> Result<SyncView, ParseErrorView> {
        Err(ParseErrorView::BadContent(Self::spec_name(), text))
    }

    fn name() -> &'static str {
        "sync"
    }

    fn empty() -> Sync {
        Sync {
            items: no_items(),
            comment: None,
        }
    }

    fn parse_attribs(&mut self, element: &str, attribs: &mut Attribs) -> (r: Result<
        (),
        ParseError,
    >) {
        self.comment = attribs.remove("comment");
        Ok(())
    }

    fn parse_child(
        &mut self,
        reader: &mut Reader,
        element: String,
        attribs: &mut Attribs,
    ) -> (r: Result<(), ParseError>) {
        let item = SyncItem::parse(reader, element, attribs)?;
        add_item(&mut self.items, item);
        Ok(())
    }

    fn parse_text(&mut self, text: String) -> (r: Result<(), ParseError>) {
        Err(ParseError::BadContent(String::from_str("sync"), text))
    }
}

/// A child of the `sync` element.
pub enum SyncItem {
    Stage(SyncStage),
    Access(SyncAccess),
    Pipeline(SyncPipeline),
}

/// `SyncItem` with its strings as character sequences.
pub ghost enum SyncItemView {
    Stage(SyncStageView),
    Access(SyncAccessView),
    Pipeline(SyncPipelineView),
}

impl DeepView for SyncItem {
    type V = SyncItemView;

    open spec fn deep_view(&self) -> SyncItemView {
        match *self {
            SyncItem::Stage(x) => SyncItemView::Stage(x.deep_view()),
            SyncItem::Access(x) => SyncItemView::Access(x.deep_view()),
            SyncItem::Pipeline(x) => SyncItemView::Pipeline(x.deep_view()),
        }
    }
}

impl Parse for SyncItem {
    open spec fn spec_read(reader: ReaderView, element: Seq<char>, attribs: AttribsView) -> (
        Result<SyncItemView, ParseErrorView>,
        ReaderView,
    ) {
        if element == "syncstage"@ {
            map_read(
                SyncStage::spec_read(reader, element, attribs),
                |x: SyncStageView| SyncItemView::Stage(x),
            )
        } else if element == "syncaccess"@ {
            map_read(
                SyncAccess::spec_read(reader, element, attribs),
                |x: SyncAccessView| SyncItemView::Access(x),
            )
        } else if element == "syncpipeline"@ {
            map_read(
                SyncPipeline::spec_read(reader, element, attribs),
                |x: SyncPipelineView| SyncItemView::Pipeline(x),
            )
        } else {
            (Err(ParseErrorView::BadChild("sync"@, element)), reader)
        }
    }

    fn parse(reader: &mut Reader, element: String, attribs: &mut Attribs) -> (r: Result<
        SyncItem,
        ParseError,
    >) {
        if str_eq(element.as_str(), "syncstage") {
            Ok(SyncItem::Stage(SyncStage::parse(reader, element, attribs)?))
        } else if str_eq(element.as_str(), "syncaccess") {
            Ok(SyncItem::Access(SyncAccess::parse(reader, element, attribs)?))
        } else if str_eq(element.as_str(), "syncpipeline") {
            Ok(SyncItem::Pipeline(SyncPipeline::parse(reader, element, attribs)?))
        } else {
            Err(ParseError::BadChild(String::from_str("sync"), element))
        }
    }
}

/// A pipeline stage.
pub struct SyncStage {
    pub name: String,
    pub alias: Option<String>,
    pub items: Vec<SyncStageItem>,
}

/// `SyncStage` with its strings as character sequences.
pub ghost struct SyncStageView {
    pub name: Seq<char>,
    pub alias: Option<Seq<char>>,
    pub items: Seq<SyncStageItemView>,
}

impl DeepView for SyncStage {
    type V = SyncStageView;

    open spec fn deep_view(&self) -> SyncStageView {
        SyncStageView {
            name: self.name.deep_view(),
            alias: self.alias.deep_view(),
            items: self.items.deep_view(),
        }
    }
}

impl GenericParse for SyncStage {
    open spec fn spec_name() -> Seq<char> {
        "syncstage"@
    }

    open spec fn spec_empty() -> SyncStageView {
        SyncStageView {
            name: Seq::empty(),
            alias: None,
            items: Seq::empty(),
        }
    }

    open spec fn spec_attribs(
        acc: SyncStageView,
        element: Seq<char>,
        attribs: AttribsView,
    ) -> Result<
        (SyncStageView, AttribsView),
        ParseErrorView,
    > {
        match spec_req(attribs, element, "name"@) {
            Err(e) => Err(e),
            Ok((name, a)) => {
                let (alias, a) = spec_take(a, "alias"@);
                Ok((SyncStageView { name, alias, ..acc }, a))
            },
        }
    }

    open spec fn spec_child(
        acc: SyncStageView,
        reader: ReaderView,
        element: Seq<char>,
        attribs: AttribsView,
    ) -> (Result<SyncStageView, ParseErrorView>, ReaderView) {
        map_read(
            SyncStageItem::spec_read(reader, element, attribs),
            |item: SyncStageItemView| SyncStageView { items: acc.items.push(item), ..acc },
        )
    }

    open spec fn spec_text(
        acc: SyncStageView,
        text: Seq<char>,
    ) -> Result<SyncStageView, ParseErrorView> {
        Err(ParseErrorView::BadContent(Self::spec_name(), text))
    }

    fn name() -> &'static str {
        "syncstage"
    }

    fn empty() -> SyncStage {
        SyncStage {
            name: String::new(),
            alias: None,
            items: no_items(),
        }
    }

    fn parse_attribs(&mut self, element: &str, attribs: &mut Attribs) -> (r: Result<
        (),
        ParseError,
    >) {
        self.name = attribs.req_attrib(element, "name")?;
        self.alias = attribs.remove("alias");
        Ok(())
    }

    fn parse_child(
        &mut self,
        reader: &mut Reader,
        element: String,
        attribs: &mut Attribs,
    ) -> (r: Result<(), ParseError>) {
        let item = SyncStageItem::parse(reader, element, attribs)?;
        add_item(&mut self.items, item);
        Ok(())
    }

    fn parse_text(&mut self, text: String) -> (r: Result<(), ParseError>) {
        Err(ParseError::BadContent(String::from_str("syncstage"), text))
    }
}

/// A child of a `syncstage` element.
pub enum SyncStageItem {
    Comment(Comment),
    Support(SyncStageSupport),
    Equivalent(SyncStageEquivalent),
}

/// `SyncStageItem` with its strings as character sequences.
pub ghost enum SyncStageItemView {
    Comment(CommentView),
    Support(SyncStageSupportView),
    Equivalent(SyncStageEquivalentView),
}

impl DeepView for SyncStageItem {
    type V = SyncStageItemView;

    open spec fn deep_view(&self) -> SyncStageItemView {
        match *self {
            SyncStageItem::Comment(x) => SyncStageItemView::Comment(x.deep_view()),
            SyncStageItem::Support(x) => SyncStageItemView::Support(x.deep_view()),
            SyncStageItem::Equivalent(x) => SyncStageItemView::Equivalent(x.deep_view()),
        }
    }
}

impl Parse for SyncStageItem {
    open spec fn spec_read(reader: ReaderView, element: Seq<char>, attribs: AttribsView) -> (
        Result<SyncStageItemView, ParseErrorView>,
        ReaderView,
    ) {
        if element == "comment"@ {
            map_read(
                Comment::spec_read(reader, element, attribs),
                |x: CommentView| SyncStageItemView::Comment(x),
            )
        } else if element == "syncsupport"@ {
            map_read(
                SyncStageSupport::spec_read(reader, element, attribs),
                |x: SyncStageSupportView| SyncStageItemView::Support(x),
            )
        } else if element == "syncequivalent"@ {
            map_read(
                SyncStageEquivalent::spec_read(reader, element, attribs),
                |x: SyncStageEquivalentView| SyncStageItemView::Equivalent(x),
            )
        } else {
            (Err(ParseErrorView::BadChild("syncstage"@, element)), reader)
        }
    }

    fn parse(reader: &mut Reader, element: String, attribs: &mut Attribs) -> (r: Result<
        SyncStageItem,
        ParseError,
    >) {
        if str_eq(element.as_str(), "comment") {
            Ok(SyncStageItem::Comment(Comment::parse(reader, element, attribs)?))
        } else if str_eq(element.as_str(), "syncsupport") {
            Ok(SyncStageItem::Support(SyncStageSupport::parse(reader, element, attribs)?))
        } else if str_eq(element.as_str(), "syncequivalent") {
            Ok(SyncStageItem::Equivalent(SyncStageEquivalent::parse(reader, element, attribs)?))
        } else {
            Err(ParseError::BadChild(String::from_str("syncstage"), element))
        }
    }
}

/// The queues that support a pipeline stage.
pub struct SyncStageSupport {
    pub queues: Vec<String>,
}

/// `SyncStageSupport` with its strings as character sequences.
pub ghost struct SyncStageSupportView {
    pub queues: Seq<Seq<char>>,
}

impl DeepView for SyncStageSupport {
    type V = SyncStageSupportView;

    open spec fn deep_view(&self) -> SyncStageSupportView {
        SyncStageSupportView {
            queues: self.queues.deep_view(),
        }
    }
}

impl GenericParse for SyncStageSupport {
    open spec fn spec_name() -> Seq<char> {
        "syncsupport"@
    }

    open spec fn spec_empty() -> SyncStageSupportView {
        SyncStageSupportView {
            queues: Seq::empty(),
        }
    }

    open spec fn spec_attribs(
        acc: SyncStageSupportView,
        element: Seq<char>,
        attribs: AttribsView,
    ) -> Result<
        (SyncStageSupportView, AttribsView),
        ParseErrorView,
    > {
        match spec_req_list(attribs, element, "queues"@) {
            Err(e) => Err(e),
            Ok((queues, a)) => {
                Ok((SyncStageSupportView { queues }, a))
            },
        }
    }

    open spec fn spec_child(
        acc: SyncStageSupportView,
        reader: ReaderView,
        element: Seq<char>,
        attribs: AttribsView,
    ) -> (Result<SyncStageSupportView, ParseErrorView>, ReaderView) {
        (Err(ParseErrorView::BadChild(Self::spec_name(), element)), reader)
    }

    open spec fn spec_text(
        acc: SyncStageSupportView,
        text: Seq<char>,
    ) -> Result<SyncStageSupportView, ParseErrorView> {
        Err(ParseErrorView::BadContent(Self::spec_name(), text))
    }

    fn name() -> &'static str {
        "syncsupport"
    }

    fn empty() -> SyncStageSupport {
        SyncStageSupport {
            queues: no_items(),
        }
    }

    fn parse_attribs(&mut self, element: &str, attribs: &mut Attribs) -> (r: Result<
        (),
        ParseError,
    >) {
        self.queues = attribs.req_list(element, "queues")?;
        Ok(())
    }

    fn parse_child(
        &mut self,
        reader: &mut Reader,
        element: String,
        attribs: &mut Attribs,
    ) -> (r: Result<(), ParseError>) {
        Err(ParseError::BadChild(String::from_str("syncsupport"), element))
    }

    fn parse_text(&mut self, text: String) -> (r: Result<(), ParseError>) {
        Err(ParseError::BadContent(String::from_str("syncsupport"), text))
    }
}

/// The stages that a pipeline stage stands for.
pub struct SyncStageEquivalent {
    pub stage: Vec<String>,
}

/// `SyncStageEquivalent` with its strings as character sequences.
pub ghost struct SyncStageEquivalentView {
    pub stage: Seq<Seq<char>>,
}

impl DeepView for SyncStageEquivalent {
    type V = SyncStageEquivalentView;

    open spec fn deep_view(&self) -> SyncStageEquivalentView {
        SyncStageEquivalentView {
            stage: self.stage.deep_view(),
        }
    }
}

impl GenericParse for SyncStageEquivalent {
    open spec fn spec_name() -> Seq<char> {
        "syncequivalent"@
    }

    open spec fn spec_empty() -> SyncStageEquivalentView {
        SyncStageEquivalentView {
            stage: Seq::empty(),
        }
    }

    open spec fn spec_attribs(
        acc: SyncStageEquivalentView,
        element: Seq<char>,
        attribs: AttribsView,
    ) -> Result<
        (SyncStageEquivalentView, AttribsView),
        ParseErrorView,
    > {
        match spec_req_list(attribs, element, "stage"@) {
            Err(e) => Err(e),
            Ok((stage, a)) => {
                Ok((SyncStageEquivalentView { stage }, a))
            },
        }
    }

    open spec fn spec_child(
        acc: SyncStageEquivalentView,
        reader: ReaderView,
        element: Seq<char>,
        attribs: AttribsView,
    ) -> (Result<SyncStageEquivalentView, ParseErrorView>, ReaderView) {
        (Err(ParseErrorView::BadChild(Self::spec_name(), element)), reader)
    }

    open spec fn spec_text(
        acc: SyncStageEquivalentView,
        text: Seq<char>,
    ) -> Result<SyncStageEquivalentView, ParseErrorView> {
        Err(ParseErrorView::BadContent(Self::spec_name(), text))
    }

    fn name() -> &'static str {
        "syncequivalent"
    }

    fn empty() -> SyncStageEquivalent {
        SyncStageEquivalent {
            stage: no_items(),
        }
    }

    fn parse_attribs(&mut self, element: &str, attribs: &mut Attribs) -> (r: Result<
        (),
        ParseError,
    >) {
        self.stage = attribs.req_list(element, "stage")?;
        Ok(())
    }

    fn parse_child(
        &mut self,
        reader: &mut Reader,
        element: String,
        attribs: &mut Attribs,
    ) -> (r: Result<(), ParseError>) {
        Err(ParseError::BadChild(String::from_str("syncequivalent"), element))
    }

    fn parse_text(&mut self, text: String) -> (r: Result<(), ParseError>) {
        Err(ParseError::BadContent(String::from_str("syncequivalent"), text))
    }
}

/// An access type.
pub struct SyncAccess {
    pub name: String,
    pub alias: Option<String>,
    pub items: Vec<SyncAccessItem>,
}

/// `SyncAccess` with its strings as character sequences.
pub ghost struct SyncAccessView {
    pub name: Seq<char>,
    pub alias: Option<Seq<char>>,
    pub items: Seq<SyncAccessItemView>,
}

impl DeepView for SyncAccess {
    type V = SyncAccessView;

    open spec fn deep_view(&self) -> SyncAccessView {
        SyncAccessView {
            name: self.name.deep_view(),
            alias: self.alias.deep_view(),
            items: self.items.deep_view(),
        }
    }
}

impl GenericParse for SyncAccess {
    open spec fn spec_name() -> Seq<char> {
        "syncaccess"@
    }

    open spec fn spec_empty() -> SyncAccessView {
        SyncAccessView {
            name: Seq::empty(),
            alias: None,
            items: Seq::empty(),
        }
    }

    open spec fn spec_attribs(
        acc: SyncAccessView,
        element: Seq<char>,
        attribs: AttribsView,
    ) -> Result<
        (SyncAccessView, AttribsView),
        ParseErrorView,
    > {
        match spec_req(attribs, element, "name"@) {
            Err(e) => Err(e),
            Ok((name, a)) => {
                let (alias, a) = spec_take(a, "alias"@);
                Ok((SyncAccessView { name, alias, ..acc }, a))
            },
        }
    }

    open spec fn spec_child(
        acc: SyncAccessView,
        reader: ReaderView,
        element: Seq<char>,
        attribs: AttribsView,
    ) -> (Result<SyncAccessView, ParseErrorView>, ReaderView) {
        map_read(
            SyncAccessItem::spec_read(reader, element, attribs),
            |item: SyncAccessItemView| SyncAccessView { items: acc.items.push(item), ..acc },
        )
    }

    open spec fn spec_text(
        acc: SyncAccessView,
        text: Seq<char>,
    ) -> Result<SyncAccessView, ParseErrorView> {
        Err(ParseErrorView::BadContent(Self::spec_name(), text))
    }

    fn name() -> &'static str {
        "syncaccess"
    }

    fn empty() -> SyncAccess {
        SyncAccess {
            name: String::new(),
            alias: None,
            items: no_items(),
        }
    }

    fn parse_attribs(&mut self, element: &str, attribs: &mut Attribs) -> (r: Result<
        (),
        ParseError,
    >) {
        self.name = attribs.req_attrib(element, "name")?;
        self.alias = attribs.remove("alias");
        Ok(())
    }

    fn parse_child(
        &mut self,
        reader: &mut Reader,
        element: String,
        attribs: &mut Attribs,
    ) -> (r: Result<(), ParseError>) {
        let item = SyncAccessItem::parse(reader, element, attribs)?;
        add_item(&mut self.items, item);
        Ok(())
    }

    fn parse_text(&mut self, text: String) -> (r: Result<(), ParseError>) {
        Err(ParseError::BadContent(String::from_str("syncaccess"), text))
    }
}

/// A child of a `syncaccess` element.
pub enum SyncAccessItem {
    Comment(Comment),
    Support(SyncAccessSupport),
    Equivalent(SyncAccessEquivalent),
}

/// `SyncAccessItem` with its strings as character sequences.
pub ghost enum SyncAccessItemView {
    Comment(CommentView),
    Support(SyncAccessSupportView),
    Equivalent(SyncAccessEquivalentView),
}

impl DeepView for SyncAccessItem {
    type V = SyncAccessItemView;

    open spec fn deep_view(&self) -> SyncAccessItemView {
        match *self {
            SyncAccessItem::Comment(x) => SyncAccessItemView::Comment(x.deep_view()),
            SyncAccessItem::Support(x) => SyncAccessItemView::Support(x.deep_view()),
            SyncAccessItem::Equivalent(x) => SyncAccessItemView::Equivalent(x.deep_view()),
        }
    }
}

impl Parse for SyncAccessItem {
    open spec fn spec_read(reader: ReaderView, element: Seq<char>, attribs: AttribsView) -> (
        Result<SyncAccessItemView, ParseErrorView>,
        ReaderView,
    ) {
        if element == "comment"@ {
            map_read(
                Comment::spec_read(reader, element, attribs),
                |x: CommentView| SyncAccessItemView::Comment(x),
            )
        } else if element == "syncsupport"@ {
            map_read(
                SyncAccessSupport::spec_read(reader, element, attribs),
                |x: SyncAccessSupportView| SyncAccessItemView::Support(x),
            )
        } else if element == "syncequivalent"@ {
            map_read(
                SyncAccessEquivalent::spec_read(reader, element, attribs),
                |x: SyncAccessEquivalentView| SyncAccessItemView::Equivalent(x),
            )
        } else {
            (Err(ParseErrorView::BadChild("syncaccess"@, element)), reader)
        }
    }

    fn parse(reader: &mut Reader, element: String, attribs: &mut Attribs) -> (r: Result<
        SyncAccessItem,
        ParseError,
    >) {
        if str_eq(element.as_str(), "comment") {
            Ok(SyncAccessItem::Comment(Comment::parse(reader, element, attribs)?))
        } else if str_eq(element.as_str(), "syncsupport") {
            Ok(SyncAccessItem::Support(SyncAccessSupport::parse(reader, element, attribs)?))
        } else if str_eq(element.as_str(), "syncequivalent") {
            Ok(SyncAccessItem::Equivalent(SyncAccessEquivalent::parse(reader, element, attribs)?))
        } else {
            Err(ParseError::BadChild(String::from_str("syncaccess"), element))
        }
    }
}

/// The stages that support an access type.
pub struct SyncAccessSupport {
    pub stage: Vec<String>,
}

/// `SyncAccessSupport` with its strings as character sequences.
pub ghost struct SyncAccessSupportView {
    pub stage: Seq<Seq<char>>,
}

impl DeepView for SyncAccessSupport {
    type V = SyncAccessSupportView;

    open spec fn deep_view(&self) -> SyncAccessSupportView {
        SyncAccessSupportView {
            stage: self.stage.deep_view(),
        }
    }
}

impl GenericParse for SyncAccessSupport {
    open spec fn spec_name() -> Seq<char> {
        "syncsupport"@
    }

    open spec fn spec_empty() -> SyncAccessSupportView {
        SyncAccessSupportView {
            stage: Seq::empty(),
        }
    }

    open spec fn spec_attribs(
        acc: SyncAccessSupportView,
        element: Seq<char>,
        attribs: AttribsView,
    ) -> Result<
        (SyncAccessSupportView, AttribsView),
        ParseErrorView,
    > {
        match spec_req_list(attribs, element, "stage"@) {
            Err(e) => Err(e),
            Ok((stage, a)) => {
                Ok((SyncAccessSupportView { stage }, a))
            },
        }
    }

    open spec fn spec_child(
        acc: SyncAccessSupportView,
        reader: ReaderView,
        element: Seq<char>,
        attribs: AttribsView,
    ) -> (Result<SyncAccessSupportView, ParseErrorView>, ReaderView) {
        (Err(ParseErrorView::BadChild(Self::spec_name(), element)), reader)
    }

    open spec fn spec_text(
        acc: SyncAccessSupportView,
        text: Seq<char>,
    ) -> Result<SyncAccessSupportView, ParseErrorView> {
        Err(ParseErrorView::BadContent(Self::spec_name(), text))
    }

    fn name() -> &'static str {
        "syncsupport"
    }

    fn empty() -> SyncAccessSupport {
        SyncAccessSupport {
            stage: no_items(),
        }
    }

    fn parse_attribs(&mut self, element: &str, attribs: &mut Attribs) -> (r: Result<
        (),
        ParseError,
    >) {
        self.stage = attribs.req_list(element, "stage")?;
        Ok(())
    }

    fn parse_child(
        &mut self,
        reader: &mut Reader,
        element: String,
        attribs: &mut Attribs,
    ) -> (r: Result<(), ParseError>) {
        Err(ParseError::BadChild(String::from_str("syncsupport"), element))
    }

    fn parse_text(&mut self, text: String) -> (r: Result<(), ParseError>) {
        Err(ParseError::BadContent(String::from_str("syncsupport"), text))
    }
}

/// The access types that an access type stands for.
pub struct SyncAccessEquivalent {
    pub access: Vec<String>,
}

/// `SyncAccessEquivalent` with its strings as character sequences.
pub ghost struct SyncAccessEquivalentView {
    pub access: Seq<Seq<char>>,
}

impl DeepView for SyncAccessEquivalent {
    type V = SyncAccessEquivalentView;

    open spec fn deep_view(&self) -> SyncAccessEquivalentView {
        SyncAccessEquivalentView {
            access: self.access.deep_view(),
        }
    }
}

impl GenericParse for SyncAccessEquivalent {
    open spec fn spec_name() -> Seq<char> {
        "syncequivalent"@
    }

    open spec fn spec_empty() -> SyncAccessEquivalentView {
        SyncAccessEquivalentView {
            access: Seq::empty(),
        }
    }

    open spec fn spec_attribs(
        acc: SyncAccessEquivalentView,
        element: Seq<char>,
        attribs: AttribsView,
    ) -> Result<
        (SyncAccessEquivalentView, AttribsView),
        ParseErrorView,
    > {
        match spec_req_list(attribs, element, "access"@) {
            Err(e) => Err(e),
            Ok((access, a)) => {
                Ok((SyncAccessEquivalentView { access }, a))
            },
        }
    }

    open spec fn spec_child(
        acc: SyncAccessEquivalentView,
        reader: ReaderView,
        element: Seq<char>,
        attribs: AttribsView,
    ) -> (Result<SyncAccessEquivalentView, ParseErrorView>, ReaderView) {
        (Err(ParseErrorView::BadChild(Self::spec_name(), element)), reader)
    }

    open spec fn spec_text(
        acc: SyncAccessEquivalentView,
        text: Seq<char>,
    ) -> Result<SyncAccessEquivalentView, ParseErrorView> {
        Err(ParseErrorView::BadContent(Self::spec_name(), text))
    }

    fn name() -> &'static str {
        "syncequivalent"
    }

    fn empty() -> SyncAccessEquivalent {
        SyncAccessEquivalent {
            access: no_items(),
        }
    }

    fn parse_attribs(&mut self, element: &str, attribs: &mut Attribs) -> (r: Result<
        (),
        ParseError,
    >) {
        self.access = attribs.req_list(element, "access")?;
        Ok(())
    }

    fn parse_child(
        &mut self,
        reader: &mut Reader,
        element: String,
        attribs: &mut Attribs,
    ) -> (r: Result<(), ParseError>) {
        Err(ParseError::BadChild(String::from_str("syncequivalent"), element))
    }

    fn parse_text(&mut self, text: String) -> (r: Result<(), ParseError>) {
        Err(ParseError::BadContent(String::from_str("syncequivalent"), text))
    }
}

/// A pipeline: an ordered list of stages.
pub struct SyncPipeline {
    pub name: String,
    pub depends: Option<Depends>,
    pub items: Vec<SyncPipelineStage>,
}

/// `SyncPipeline` with its strings as character sequences.
pub ghost struct SyncPipelineView {
    pub name: Seq<char>,
    pub depends: Option<DependsView>,
    pub items: Seq<SyncPipelineStageView>,
}

impl DeepView for SyncPipeline {
    type V = SyncPipelineView;

    open spec fn deep_view(&self) -> SyncPipelineView {
        SyncPipelineView {
            name: self.name.deep_view(),
            depends: self.depends.deep_view(),
            items: self.items.deep_view(),
        }
    }
}

impl GenericParse for SyncPipeline {
    open spec fn spec_name() -> Seq<char> {
        "syncpipeline"@
    }

    open spec fn spec_empty() -> SyncPipelineView {
        SyncPipelineView {
            name: Seq::empty(),
            depends: None,
            items: Seq::empty(),
        }
    }

    open spec fn spec_attribs(
        acc: SyncPipelineView,
        element: Seq<char>,
        attribs: AttribsView,
    ) -> Result<
        (SyncPipelineView, AttribsView),
        ParseErrorView,
    > {
        match spec_req(attribs, element, "name"@) {
            Err(e) => Err(e),
            Ok((name, a)) => {
                match spec_try_get::<Depends>(a, element, "depends"@) {
                    Err(e) => Err(e),
                    Ok((depends, a)) => {
                        Ok((SyncPipelineView { name, depends, ..acc }, a))
                    },
                }
            },
        }
    }

    open spec fn spec_child(
        acc: SyncPipelineView,
        reader: ReaderView,
        element: Seq<char>,
        attribs: AttribsView,
    ) -> (Result<SyncPipelineView, ParseErrorView>, ReaderView) {
        map_read(
            SyncPipelineStage::spec_read(reader, element, attribs),
            |item: SyncPipelineStageView| SyncPipelineView { items: acc.items.push(item), ..acc },
        )
    }

    open spec fn spec_text(
        acc: SyncPipelineView,
        text: Seq<char>,
    ) -> Result<SyncPipelineView, ParseErrorView> {
        Err(ParseErrorView::BadContent(Self::spec_name(), text))
    }

    fn name() -> &'static str {
        "syncpipeline"
    }

    fn empty() -> SyncPipeline {
        SyncPipeline {
            name: String::new(),
            depends: None,
            items: no_items(),
        }
    }

    fn parse_attribs(&mut self, element: &str, attribs: &mut Attribs) -> (r: Result<
        (),
        ParseError,
    >) {
        self.name = attribs.req_attrib(element, "name")?;
        self.depends = attribs.try_get::<Depends>(element, "depends")?;
        Ok(())
    }

    fn parse_child(
        &mut self,
        reader: &mut Reader,
        element: String,
        attribs: &mut Attribs,
    ) -> (r: Result<(), ParseError>) {
        let item = SyncPipelineStage::parse(reader, element, attribs)?;
        add_item(&mut self.items, item);
        Ok(())
    }

    fn parse_text(&mut self, text: String) -> (r: Result<(), ParseError>) {
        Err(ParseError::BadContent(String::from_str("syncpipeline"), text))
    }
}

/// A stage of a pipeline.
pub struct SyncPipelineStage {
    pub order: Option<String>,
    pub before: Option<String>,
    pub content: String,
}

/// `SyncPipelineStage` with its strings as character sequences.
pub ghost struct SyncPipelineStageView {
    pub order: Option<Seq<char>>,
    pub before: Option<Seq<char>>,
    pub content: Seq<char>,
}

impl DeepView for SyncPipelineStage {
    type V = SyncPipelineStageView;

    open spec fn deep_view(&self) -> SyncPipelineStageView {
        SyncPipelineStageView {
            order: self.order.deep_view(),
            before: self.before.deep_view(),
            content: self.content.deep_view(),
        }
    }
}

impl GenericParse for SyncPipelineStage {
    open spec fn spec_name() -> Seq<char> {
        "syncpipelinestage"@
    }

    open spec fn spec_empty() -> SyncPipelineStageView {
        SyncPipelineStageView {
            order: None,
            before: None,
            content: Seq::empty(),
        }
    }

    open spec fn spec_attribs(
        acc: SyncPipelineStageView,
        element: Seq<char>,
        attribs: AttribsView,
    ) -> Result<
        (SyncPipelineStageView, AttribsView),
        ParseErrorView,
    > {
        let (order, a) = spec_take(attribs, "order"@);
        let (before, a) = spec_take(a, "before"@);
        Ok((SyncPipelineStageView { order, before, ..acc }, a))
    }

    open spec fn spec_child(
        acc: SyncPipelineStageView,
        reader: ReaderView,
        element: Seq<char>,
        attribs: AttribsView,
    ) -> (Result<SyncPipelineStageView, ParseErrorView>, ReaderView) {
        (Err(ParseErrorView::BadChild(Self::spec_name(), element)), reader)
    }

    open spec fn spec_text(
        acc: SyncPipelineStageView,
        text: Seq<char>,
    ) -> Result<SyncPipelineStageView, ParseErrorView> {
        Ok(SyncPipelineStageView { content: acc.content + text, ..acc })
    }

    fn name() -> &'static str {
        "syncpipelinestage"
    }

    fn empty() -> SyncPipelineStage {
        SyncPipelineStage {
            order: None,
            before: None,
            content: String::new(),
        }
    }

    fn parse_attribs(&mut self, element: &str, attribs: &mut Attribs) -> (r: Result<
        (),
        ParseError,
    >) {
        self.order = attribs.remove("order");
        self.before = attribs.remove("before");
        Ok(())
    }

    fn parse_child(
        &mut self,
        reader: &mut Reader,
        element: String,
        attribs: &mut Attribs,
    ) -> (r: Result<(), ParseError>) {
        Err(ParseError::BadChild(String::from_str("syncpipelinestage"), element))
    }

    fn parse_text(&mut self, text: String) -> (r: Result<(), ParseError>) {
        self.content.append(text.as_str());
        Ok(())
    }
}

} // verus!
