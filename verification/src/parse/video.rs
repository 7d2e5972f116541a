//! The `videocodecs` element.

use vstd::prelude::*;
use vstd::string::*;
use crate::attribs::Attribs;
use crate::attribs::AttribsView;
use crate::attribs::spec_req;
use crate::attribs::spec_take;
use crate::error::ParseError;
use crate::error::ParseErrorView;
use crate::parse::protocol::GenericParse;
use crate::parse::protocol::Parse;
use crate::parse::protocol::Reader;
use crate::parse::protocol::ReaderView;
use crate::parse::protocol::add_item;
use crate::parse::protocol::map_read;
use crate::parse::protocol::no_items;
use crate::text::str_eq;

verus! {

/// The `videocodecs` element: the list of video codecs.
pub struct VideoCodecs {
    pub items: Vec<VideoCodec>,
    pub comment: Option<String>,
}

/// `VideoCodecs` with its strings as character sequences.
pub ghost struct VideoCodecsView {
    pub items: Seq<VideoCodecView>,
    pub comment: Option<Seq<char>>,
}

impl DeepView for VideoCodecs {
    type V = VideoCodecsView;

    open spec fn deep_view(&self) -> VideoCodecsView {
        VideoCodecsView {
            items: self.items.deep_view(),
            comment: self.comment.deep_view(),
        }
    }
}

impl GenericParse for VideoCodecs {
    open spec fn spec_name() -> Seq<char> {
        "videocodecs"@
    }

    open spec fn spec_empty() -> VideoCodecsView {
        VideoCodecsView {
            items: Seq::empty(),
            comment: None,
        }
    }

    open spec fn spec_attribs(
        acc: VideoCodecsView,
        element: Seq<char>,
        attribs: AttribsView,
    ) -> Result<
        (VideoCodecsView, AttribsView),
        ParseErrorView,
    > {
        let (comment, a) = spec_take(attribs, "comment"@);
        Ok((VideoCodecsView { comment, ..acc }, a))
    }

    open spec fn spec_child(
        acc: VideoCodecsView,
        reader: ReaderView,
        element: Seq<char>,
        attribs: AttribsView,
    ) -> (Result<VideoCodecsView, ParseErrorView>, ReaderView) {
        map_read(
            VideoCodec::spec_read(reader, element, attribs),
            |item: VideoCodecView| VideoCodecsView { items: acc.items.push(item), ..acc },
        )
    }

    open spec fn spec_text(
        acc: VideoCodecsView,
        text: Seq<char>,
    ) -> Result<VideoCodecsView, ParseErrorView> {
        Err(ParseErrorView::BadContent(Self::spec_name(), text))
    }

    fn name() -> &'static str {
        "videocodecs"
    }

    fn empty() -> VideoCodecs {
        VideoCodecs {
            items: no_items(),
            comment: None,
        }
    }

    fn parse_attribs(&mut self, element: &str, attribs: &mut Attribs) -> (r: Result<
        (),
        ParseError,
    >) {
        self.comment = attribs.remove("comment");
        Ok(())
    }

    fn parse_child(
        &mut self,
        reader: &mut Reader,
        element: String,
        attribs: &mut Attribs,
    ) -> (r: Result<(), ParseError>) {
        let item = VideoCodec::parse(reader, element, attribs)?;
        add_item(&mut self.items, item);
        Ok(())
    }

    fn parse_text(&mut self, text: String) -> (r: Result<(), ParseError>) {
        Err(ParseError::BadContent(String::from_str("videocodecs"), text))
    }
}

/// A video codec, or a category of codecs.
pub struct VideoCodec {
    pub name: String,
    pub extend: Option<String>,
    pub value: Option<String>,
    pub items: Vec<VideoCodecItem>,
    pub comment: Option<String>,
}

/// `VideoCodec` with its strings as character sequences.
pub ghost struct VideoCodecView {
    pub name: Seq<char>,
    pub extend: Option<Seq<char>>,
    pub value: Option<Seq<char>>,
    pub items: Seq<VideoCodecItemView>,
    pub comment: Option<Seq<char>>,
}

impl DeepView for VideoCodec {
    type V = VideoCodecView;

    open spec fn deep_view(&self) -> VideoCodecView {
        VideoCodecView {
            name: self.name.deep_view(),
            extend: self.extend.deep_view(),
            value: self.value.deep_view(),
            items: self.items.deep_view(),
            comment: self.comment.deep_view(),
        }
    }
}

impl GenericParse for VideoCodec {
    open spec fn spec_name() -> Seq<char> {
        "videocodec"@
    }

    open spec fn spec_empty() -> VideoCodecView {
        VideoCodecView {
            name: Seq::empty(),
            extend: None,
            value: None,
            items: Seq::empty(),
            comment: None,
        }
    }

    open spec fn spec_attribs(
        acc: VideoCodecView,
        element: Seq<char>,
        attribs: AttribsView,
    ) -> Result<
        (VideoCodecView, AttribsView),
        ParseErrorView,
    > {
        match spec_req(attribs, element, "name"@) {
            Err(e) => Err(e),
            Ok((name, a)) => {
                let (extend, a) = spec_take(a, "extend"@);
                let (value, a) = spec_take(a, "value"@);
                let (comment, a) = spec_take(a, "comment"@);
                Ok((VideoCodecView { name, extend, value, comment, ..acc }, a))
            },
        }
    }

    open spec fn spec_child(
        acc: VideoCodecView,
        reader: ReaderView,
        element: Seq<char>,
        attribs: AttribsView,
    ) -> (Result<VideoCodecView, ParseErrorView>, ReaderView) {
        map_read(
            VideoCodecItem::spec_read(reader, element, attribs),
            |item: VideoCodecItemView| VideoCodecView { items: acc.items.push(item), ..acc },
        )
    }

    open spec fn spec_text(
        acc: VideoCodecView,
        text: Seq<char>,
    ) -> Result<VideoCodecView, ParseErrorView> {
        Err(ParseErrorView::BadContent(Self::spec_name(), text))
    }

    fn name() -> &'static str {
        "videocodec"
    }

    fn empty() -> VideoCodec {
        VideoCodec {
            name: String::new(),
            extend: None,
            value: None,
            items: no_items(),
            comment: None,
        }
    }

    fn parse_attribs(&mut self, element: &str, attribs: &mut Attribs) -> (r: Result<
        (),
        ParseError,
    >) {
        self.name = attribs.req_attrib(element, "name")?;
        self.extend = attribs.remove("extend");
        self.value = attribs.remove("value");
        self.comment = attribs.remove("comment");
        Ok(())
    }

    fn parse_child(
        &mut self,
        reader: &mut Reader,
        element: String,
        attribs: &mut Attribs,
    ) -> (r: Result<(), ParseError>) {
        let item = VideoCodecItem::parse(reader, element, attribs)?;
        add_item(&mut self.items, item);
        Ok(())
    }

    fn parse_text(&mut self, text: String) -> (r: Result<(), ParseError>) {
        Err(ParseError::BadContent(String::from_str("videocodec"), text))
    }
}

/// A child of a `videocodec` element.
pub enum VideoCodecItem {
    Capabilities(VideoCapabilities),
    Format(VideoFormat),
    Profiles(VideoProfiles),
}

/// `VideoCodecItem` with its strings as character sequences.
pub ghost enum VideoCodecItemView {
    Capabilities(VideoCapabilitiesView),
    Format(VideoFormatView),
    Profiles(VideoProfilesView),
}

impl DeepView for VideoCodecItem {
    type V = VideoCodecItemView;

    open spec fn deep_view(&self) -> VideoCodecItemView {
        match *self {
            VideoCodecItem::Capabilities(x) => VideoCodecItemView::Capabilities(x.deep_view()),
            VideoCodecItem::Format(x) => VideoCodecItemView::Format(x.deep_view()),
            VideoCodecItem::Profiles(x) => VideoCodecItemView::Profiles(x.deep_view()),
        }
    }
}

impl Parse for VideoCodecItem {
    open spec fn spec_read(reader: ReaderView, element: Seq<char>, attribs: AttribsView) -> (
        Result<VideoCodecItemView, ParseErrorView>,
        ReaderView,
    ) {
        if element == "videocapabilities"@ {
            map_read(
                VideoCapabilities::spec_read(reader, element, attribs),
                |x: VideoCapabilitiesView| VideoCodecItemView::Capabilities(x),
            )
        } else if element == "videoformat"@ {
            map_read(
                VideoFormat::spec_read(reader, element, attribs),
                |x: VideoFormatView| VideoCodecItemView::Format(x),
            )
        } else if element == "videoprofiles"@ {
            map_read(
                VideoProfiles::spec_read(reader, element, attribs),
                |x: VideoProfilesView| VideoCodecItemView::Profiles(x),
            )
        } else {
            (Err(ParseErrorView::BadChild("videocodec"@, element)), reader)
        }
    }

    fn parse(reader: &mut Reader, element: String, attribs: &mut Attribs) -> (r: Result<
        VideoCodecItem,
        ParseError,
    >) {
        if str_eq(element.as_str(), "videocapabilities") {
            Ok(VideoCodecItem::Capabilities(VideoCapabilities::parse(reader, element, attribs)?))
        } else if str_eq(element.as_str(), "videoformat") {
            Ok(VideoCodecItem::Format(VideoFormat::parse(reader, element, attribs)?))
        } else if str_eq(element.as_str(), "videoprofiles") {
            Ok(VideoCodecItem::Profiles(VideoProfiles::parse(reader, element, attribs)?))
        } else {
            Err(ParseError::BadChild(String::from_str("videocodec"), element))
        }
    }
}

/// The structure that reports the capabilities of a codec.
pub struct VideoCapabilities {
    pub struct_name: String,
}

/// `VideoCapabilities` with its strings as character sequences.
pub ghost struct VideoCapabilitiesView {
    pub struct_name: Seq<char>,
}

impl DeepView for VideoCapabilities {
    type V = VideoCapabilitiesView;

    open spec fn deep_view(&self) -> VideoCapabilitiesView {
        VideoCapabilitiesView {
            struct_name: self.struct_name.deep_view(),
        }
    }
}

impl GenericParse for VideoCapabilities {
    open spec fn spec_name() -> Seq<char> {
        "videocapabilities"@
    }

    open spec fn spec_empty() -> VideoCapabilitiesView {
        VideoCapabilitiesView {
            struct_name: Seq::empty(),
        }
    }

    open spec fn spec_attribs(
        acc: VideoCapabilitiesView,
        element: Seq<char>,
        attribs: AttribsView,
    ) -> Result<
        (VideoCapabilitiesView, AttribsView),
        ParseErrorView,
    > {
        match spec_req(attribs, element, "struct"@) {
            Err(e) => Err(e),
            Ok((struct_name, a)) => {
                Ok((VideoCapabilitiesView { struct_name }, a))
            },
        }
    }

    open spec fn spec_child(
        acc: VideoCapabilitiesView,
        reader: ReaderView,
        element: Seq<char>,
        attribs: AttribsView,
    ) -> (Result<VideoCapabilitiesView, ParseErrorView>, ReaderView) {
        (Err(ParseErrorView::BadChild(Self::spec_name(), element)), reader)
    }

    open spec fn spec_text(
        acc: VideoCapabilitiesView,
        text: Seq<char>,
    ) -> Result<VideoCapabilitiesView, ParseErrorView> {
        Err(ParseErrorView::BadContent(Self::spec_name(), text))
    }

    fn name() -> &'static str {
        "videocapabilities"
    }

    fn empty() -> VideoCapabilities {
        VideoCapabilities {
            struct_name: String::new(),
        }
    }

    fn parse_attribs(&mut self, element: &str, attribs: &mut Attribs) -> (r: Result<
        (),
        ParseError,
    >) {
        self.struct_name = attribs.req_attrib(element, "struct")?;
        Ok(())
    }

    fn parse_child(
        &mut self,
        reader: &mut Reader,
        element: String,
        attribs: &mut Attribs,
    ) -> (r: Result<(), ParseError>) {
        Err(ParseError::BadChild(String::from_str("videocapabilities"), element))
    }

    fn parse_text(&mut self, text: String) -> (r: Result<(), ParseError>) {
        Err(ParseError::BadContent(String::from_str("videocapabilities"), text))
    }
}

/// A category of video formats and its image usage.
pub struct VideoFormat {
    pub name: String,
    pub usage: String,
}

/// `VideoFormat` with its strings as character sequences.
pub ghost struct VideoFormatView {
    pub name: Seq<char>,
    pub usage: Seq<char>,
}

impl DeepView for VideoFormat {
    type V = VideoFormatView;

    open spec fn deep_view(&self) -> VideoFormatView {
        VideoFormatView {
            name: self.name.deep_view(),
            usage: self.usage.deep_view(),
        }
    }
}

impl GenericParse for VideoFormat {
    open spec fn spec_name() -> Seq<char> {
        "videoformat"@
    }

    open spec fn spec_empty() -> VideoFormatView {
        VideoFormatView {
            name: Seq::empty(),
            usage: Seq::empty(),
        }
    }

    open spec fn spec_attribs(
        acc: VideoFormatView,
        element: Seq<char>,
        attribs: AttribsView,
    ) -> Result<
        (VideoFormatView, AttribsView),
        ParseErrorView,
    > {
        match spec_req(attribs, element, "name"@) {
            Err(e) => Err(e),
            Ok((name, a)) => {
                match spec_req(a, element, "usage"@) {
                    Err(e) => Err(e),
                    Ok((usage, a)) => {
                        Ok((VideoFormatView { name, usage }, a))
                    },
                }
            },
        }
    }

    open spec fn spec_child(
        acc: VideoFormatView,
        reader: ReaderView,
        element: Seq<char>,
        attribs: AttribsView,
    ) -> (Result<VideoFormatView, ParseErrorView>, ReaderView) {
        (Err(ParseErrorView::BadChild(Self::spec_name(), element)), reader)
    }

    open spec fn spec_text(
        acc: VideoFormatView,
        text: Seq<char>,
    ) -> Result<VideoFormatView, ParseErrorView> {
        Err(ParseErrorView::BadContent(Self::spec_name(), text))
    }

    fn name() -> &'static str {
        "videoformat"
    }

    fn empty() -> VideoFormat {
        VideoFormat {
            name: String::new(),
            usage: String::new(),
        }
    }

    fn parse_attribs(&mut self, element: &str, attribs: &mut Attribs) -> (r: Result<
        (),
        ParseError,
    >) {
        self.name = attribs.req_attrib(element, "name")?;
        self.usage = attribs.req_attrib(element, "usage")?;
        Ok(())
    }

    fn parse_child(
        &mut self,
        reader: &mut Reader,
        element: String,
        attribs: &mut Attribs,
    ) -> (r: Result<(), ParseError>) {
        Err(ParseError::BadChild(String::from_str("videoformat"), element))
    }

    fn parse_text(&mut self, text: String) -> (r: Result<(), ParseError>) {
        Err(ParseError::BadContent(String::from_str("videoformat"), text))
    }
}

/// The structure that selects a profile of a codec.
pub struct VideoProfiles {
    pub struct_name: String,
    pub members: Vec<VideoProfileMember>,
}

/// `VideoProfiles` with its strings as character sequences.
pub ghost struct VideoProfilesView {
    pub struct_name: Seq<char>,
    pub members: Seq<VideoProfileMemberView>,
}

impl DeepView for VideoProfiles {
    type V = VideoProfilesView;

    open spec fn deep_view(&self) -> VideoProfilesView {
        VideoProfilesView {
            struct_name: self.struct_name.deep_view(),
            members: self.members.deep_view(),
        }
    }
}

impl GenericParse for VideoProfiles {
    open spec fn spec_name() -> Seq<char> {
        "videoprofiles"@
    }

    open spec fn spec_empty() -> VideoProfilesView {
        VideoProfilesView {
            struct_name: Seq::empty(),
            members: Seq::empty(),
        }
    }

    open spec fn spec_attribs(
        acc: VideoProfilesView,
        element: Seq<char>,
        attribs: AttribsView,
    ) -> Result<
        (VideoProfilesView, AttribsView),
        ParseErrorView,
    > {
        match spec_req(attribs, element, "struct"@) {
            Err(e) => Err(e),
            Ok((struct_name, a)) => {
                Ok((VideoProfilesView { struct_name, ..acc }, a))
            },
        }
    }

    open spec fn spec_child(
        acc: VideoProfilesView,
        reader: ReaderView,
        element: Seq<char>,
        attribs: AttribsView,
    ) -> (Result<VideoProfilesView, ParseErrorView>, ReaderView) {
        map_read(
            VideoProfileMember::spec_read(reader, element, attribs),
            |item: VideoProfileMemberView|
                VideoProfilesView { members: acc.members.push(item), ..acc },
        )
    }

    open spec fn spec_text(
        acc: VideoProfilesView,
        text: Seq<char>,
    ) -> Result<VideoProfilesView, ParseErrorView> {
        Err(ParseErrorView::BadContent(Self::spec_name(), text))
    }

    fn name() -> &'static str {
        "videoprofiles"
    }

    fn empty() -> VideoProfiles {
        VideoProfiles {
            struct_name: String::new(),
            members: no_items(),
        }
    }

    fn parse_attribs(&mut self, element: &str, attribs: &mut Attribs) -> (r: Result<
        (),
        ParseError,
    >) {
        self.struct_name = attribs.req_attrib(element, "struct")?;
        Ok(())
    }

    fn parse_child(
        &mut self,
        reader: &mut Reader,
        element: String,
        attribs: &mut Attribs,
    ) -> (r: Result<(), ParseError>) {
        let item = VideoProfileMember::parse(reader, element, attribs)?;
        add_item(&mut self.members, item);
        Ok(())
    }

    fn parse_text(&mut self, text: String) -> (r: Result<(), ParseError>) {
        Err(ParseError::BadContent(String::from_str("videoprofiles"), text))
    }
}

/// A member of a profile structure and the values it can take.
pub struct VideoProfileMember {
    pub name: String,
    pub items: Vec<VideoProfile>,
}

/// `VideoProfileMember` with its strings as character sequences.
pub ghost struct VideoProfileMemberView {
    pub name: Seq<char>,
    pub items: Seq<VideoProfileView>,
}

impl DeepView for VideoProfileMember {
    type V = VideoProfileMemberView;

    open spec fn deep_view(&self) -> VideoProfileMemberView {
        VideoProfileMemberView {
            name: self.name.deep_view(),
            items: self.items.deep_view(),
        }
    }
}

impl GenericParse for VideoProfileMember {
    open spec fn spec_name() -> Seq<char> {
        "videoprofilemember"@
    }

    open spec fn spec_empty() -> VideoProfileMemberView {
        VideoProfileMemberView {
            name: Seq::empty(),
            items: Seq::empty(),
        }
    }

    open spec fn spec_attribs(
        acc: VideoProfileMemberView,
        element: Seq<char>,
        attribs: AttribsView,
    ) -> Result<
        (VideoProfileMemberView, AttribsView),
        ParseErrorView,
    > {
        match spec_req(attribs, element, "name"@) {
            Err(e) => Err(e),
            Ok((name, a)) => {
                Ok((VideoProfileMemberView { name, ..acc }, a))
            },
        }
    }

    open spec fn spec_child(
        acc: VideoProfileMemberView,
        reader: ReaderView,
        element: Seq<char>,
        attribs: AttribsView,
    ) -> (Result<VideoProfileMemberView, ParseErrorView>, ReaderView) {
        map_read(
            VideoProfile::spec_read(reader, element, attribs),
            |item: VideoProfileView| VideoProfileMemberView { items: acc.items.push(item), ..acc },
        )
    }

    open spec fn spec_text(
        acc: VideoProfileMemberView,
        text: Seq<char>,
    ) -> Result<VideoProfileMemberView, ParseErrorView> {
        Err(ParseErrorView::BadContent(Self::spec_name(), text))
    }

    fn name() -> &'static str {
        "videoprofilemember"
    }

    fn empty() -> VideoProfileMember {
        VideoProfileMember {
            name: String::new(),
            items: no_items(),
        }
    }

    fn parse_attribs(&mut self, element: &str, attribs: &mut Attribs) -> (r: Result<
        (),
        ParseError,
    >) {
        self.name = attribs.req_attrib(element, "name")?;
        Ok(())
    }

    fn parse_child(
        &mut self,
        reader: &mut Reader,
        element: String,
        attribs: &mut Attribs,
    ) -> (r: Result<(), ParseError>) {
        let item = VideoProfile::parse(reader, element, attribs)?;
        add_item(&mut self.items, item);
        Ok(())
    }

    fn parse_text(&mut self, text: String) -> (r: Result<(), ParseError>) {
        Err(ParseError::BadContent(String::from_str("videoprofilemember"), text))
    }
}

/// A value of a member of a profile structure, and its name.
pub struct VideoProfile {
    pub name: String,
    pub value: String,
}

/// `VideoProfile` with its strings as character sequences.
pub ghost struct VideoProfileView {
    pub name: Seq<char>,
    pub value: Seq<char>,
}

impl DeepView for VideoProfile {
    type V = VideoProfileView;

    open spec fn deep_view(&self) -> VideoProfileView {
        VideoProfileView {
            name: self.name.deep_view(),
            value: self.value.deep_view(),
        }
    }
}

impl GenericParse for VideoProfile {
    open spec fn spec_name() -> Seq<char> {
        "videoprofile"@
    }

    open spec fn spec_empty() -> VideoProfileView {
        VideoProfileView {
            name: Seq::empty(),
            value: Seq::empty(),
        }
    }

    open spec fn spec_attribs(
        acc: VideoProfileView,
        element: Seq<char>,
        attribs: AttribsView,
    ) -> Result<
        (VideoProfileView, AttribsView),
        ParseErrorView,
    > {
        match spec_req(attribs, element, "name"@) {
            Err(e) => Err(e),
            Ok((name, a)) => {
                match spec_req(a, element, "value"@) {
                    Err(e) => Err(e),
                    Ok((value, a)) => {
                        Ok((VideoProfileView { name, value }, a))
                    },
                }
            },
        }
    }

    open spec fn spec_child(
        acc: VideoProfileView,
        reader: ReaderView,
        element: Seq<char>,
        attribs: AttribsView,
    ) -> (Result<VideoProfileView, ParseErrorView>, ReaderView) {
        (Err(ParseErrorView::BadChild(Self::spec_name(), element)), reader)
    }

    open spec fn spec_text(
        acc: VideoProfileView,
        text: Seq<char>,
    ) -> Result<VideoProfileView, ParseErrorView> {
        Err(ParseErrorView::BadContent(Self::spec_name(), text))
    }

    fn name() -> &'static str {
        "videoprofile"
    }

    fn empty() -> VideoProfile {
        VideoProfile {
            name: String::new(),
            value: String::new(),
        }
    }

    fn parse_attribs(&mut self, element: &str, attribs: &mut Attribs) -> (r: Result<
        (),
        ParseError,
    >) {
        self.name = attribs.req_attrib(element, "name")?;
        self.value = attribs.req_attrib(element, "value")?;
        Ok(())
    }

    fn parse_child(
        &mut self,
        reader: &mut Reader,
        element: String,
        attribs: &mut Attribs,
    ) -> (r: Result<(), ParseError>) {
        Err(ParseError::BadChild(String::from_str("videoprofile"), element))
    }

    fn parse_text(&mut self, text: String) -> (r: Result<(), ParseError>) {
        Err(ParseError::BadContent(String::from_str("videoprofile"), text))
    }
}

} // verus!
