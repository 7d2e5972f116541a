//! The `formats` element: image formats, their components and planes.

use vstd::prelude::*;
use vstd::string::*;
use crate::attribs::Attribs;
use crate::attribs::AttribsView;
use crate::attribs::spec_req;
use crate::attribs::spec_take;
use crate::attribs::spec_take_list;
use crate::error::ParseError;
use crate::error::ParseErrorView;
use crate::parse::protocol::GenericParse;
use crate::parse::protocol::Parse;
use crate::parse::protocol::Reader;
use crate::parse::protocol::ReaderView;
use crate::parse::protocol::add_item;
use crate::parse::protocol::map_read;
use crate::parse::protocol::no_items;
use crate::text::str_eq;

verus! {

/// The `formats` element: the list of image formats.
pub struct Formats {
    pub items: Vec<Format>,
    pub comment: Option<String>,
}

/// `Formats` with its strings as character sequences.
pub ghost struct FormatsView {
    pub items: Seq<FormatView>,
    pub comment: Option<Seq<char>>,
}

impl DeepView for Formats {
    type V = FormatsView;

    open spec fn deep_view(&self) -> FormatsView {
        FormatsView {
            items: self.items.deep_view(),
            comment: self.comment.deep_view(),
        }
    }
}

impl GenericParse for Formats {
    open spec fn spec_name() -> Seq<char> {
        "formats"@
    }

    open spec fn spec_empty() -> FormatsView {
        FormatsView {
            items: Seq::empty(),
            comment: None,
        }
    }

    open spec fn spec_attribs(acc: FormatsView, element: Seq<char>, attribs: AttribsView) -> Result<
        (FormatsView, AttribsView),
        ParseErrorView,
    > {
        let (comment, a) = spec_take(attribs, "comment"@);
        Ok((FormatsView { comment, ..acc }, a))
    }

    open spec fn spec_child(
        acc: FormatsView,
        reader: ReaderView,
        element: Seq<char>,
        attribs: AttribsView,
    ) -> (Result<FormatsView, ParseErrorView>, ReaderView) {
        map_read(
            Format::spec_read(reader, element, attribs),
            |item: FormatView| FormatsView { items: acc.items.push(item), ..acc },
        )
    }

    open spec fn spec_text(
        acc: FormatsView,
        text: Seq<char>,
    ) -> Result<FormatsView, ParseErrorView> {
        Err(ParseErrorView::BadContent(Self::spec_name(), text))
    }

    fn name() -> &'static str {
        "formats"
    }

    fn empty() -> Formats {
        Formats {
            items: no_items(),
            comment: None,
        }
    }

    fn parse_attribs(&mut self, element: &str, attribs: &mut Attribs) -> (r: Result<
        (),
        ParseError,
    >) {
        self.comment = attribs.remove("comment");
        Ok(())
    }

    fn parse_child(
        &mut self,
        reader: &mut Reader,
        element: String,
        attribs: &mut Attribs,
    ) -> (r: Result<(), ParseError>) {
        let item = Format::parse(reader, element, attribs)?;
        add_item(&mut self.items, item);
        Ok(())
    }

    fn parse_text(&mut self, text: String) -> (r: Result<(), ParseError>) {
        Err(ParseError::BadContent(String::from_str("formats"), text))
    }
}

/// An image format.
pub struct Format {
    pub name: String,
    pub class: String,
    pub block_size: String,
    pub texels_per_block: String,
    pub packed: Option<String>,
    pub block_extent: Option<Vec<String>>,
    pub compressed: Option<String>,
    pub chroma: Option<String>,
    pub items: Vec<FormatItem>,
}

/// `Format` with its strings as character sequences.
pub ghost struct FormatView {
    pub name: Seq<char>,
    pub class: Seq<char>,
    pub block_size: Seq<char>,
    pub texels_per_block: Seq<char>,
    pub packed: Option<Seq<char>>,
    pub block_extent: Option<Seq<Seq<char>>>,
    pub compressed: Option<Seq<char>>,
    pub chroma: Option<Seq<char>>,
    pub items: Seq<FormatItemView>,
}

impl DeepView for Format {
    type V = FormatView;

    open spec fn deep_view(&self) -> FormatView {
        FormatView {
            name: self.name.deep_view(),
            class: self.class.deep_view(),
            block_size: self.block_size.deep_view(),
            texels_per_block: self.texels_per_block.deep_view(),
            packed: self.packed.deep_view(),
            block_extent: self.block_extent.deep_view(),
            compressed: self.compressed.deep_view(),
            chroma: self.chroma.deep_view(),
            items: self.items.deep_view(),
        }
    }
}

impl GenericParse for Format {
    open spec fn spec_name() -> Seq<char> {
        "format"@
    }

    open spec fn spec_empty() -> FormatView {
        FormatView {
            name: Seq::empty(),
            class: Seq::empty(),
            block_size: Seq::empty(),
            texels_per_block: Seq::empty(),
            packed: None,
            block_extent: None,
            compressed: None,
            chroma: None,
            items: Seq::empty(),
        }
    }

    open spec fn spec_attribs(acc: FormatView, element: Seq<char>, attribs: AttribsView) -> Result<
        (FormatView, AttribsView),
        ParseErrorView,
    > {
        match spec_req(attribs, element, "name"@) {
            Err(e) => Err(e),
            Ok((name, a)) => {
                match spec_req(a, element, "class"@) {
                    Err(e) => Err(e),
                    Ok((class, a)) => {
                        match spec_req(a, element, "blockSize"@) {
                            Err(e) => Err(e),
                            Ok((block_size, a)) => {
                                match spec_req(a, element, "texelsPerBlock"@) {
                                    Err(e) => Err(e),
                                    Ok((texels_per_block, a)) => {
                                        let (packed, a) = spec_take(a, "packed"@);
                                        let (block_extent, a) = spec_take_list(a, "blockExtent"@);
                                        let (compressed, a) = spec_take(a, "compressed"@);
                                        let (chroma, a) = spec_take(a, "chroma"@);
                                        Ok(
                                            (
                                                FormatView {
                                                    name,
                                                    class,
                                                    block_size,
                                                    texels_per_block,
                                                    packed,
                                                    block_extent,
                                                    compressed,
                                                    chroma,
                                                    ..acc
                                                },
                                                a,
                                            ),
                                        )
                                    },
                                }
                            },
                        }
                    },
                }
            },
        }
    }

    open spec fn spec_child(
        acc: FormatView,
        reader: ReaderView,
        element: Seq<char>,
        attribs: AttribsView,
    ) -> (Result<FormatView, ParseErrorView>, ReaderView) {
        map_read(
            FormatItem::spec_read(reader, element, attribs),
            |item: FormatItemView| FormatView { items: acc.items.push(item), ..acc },
        )
    }

    open spec fn spec_text(acc: FormatView, text: Seq<char>) -> Result<FormatView, ParseErrorView> {
        Err(ParseErrorView::BadContent(Self::spec_name(), text))
    }

    fn name() -> &'static str {
        "format"
    }

    fn empty() -> Format {
        Format {
            name: String::new(),
            class: String::new(),
            block_size: String::new(),
            texels_per_block: String::new(),
            packed: None,
            block_extent: None,
            compressed: None,
            chroma: None,
            items: no_items(),
        }
    }

    fn parse_attribs(&mut self, element: &str, attribs: &mut Attribs) -> (r: Result<
        (),
        ParseError,
    >) {
        self.name = attribs.req_attrib(element, "name")?;
        self.class = attribs.req_attrib(element, "class")?;
        self.block_size = attribs.req_attrib(element, "blockSize")?;
        self.texels_per_block = attribs.req_attrib(element, "texelsPerBlock")?;
        self.packed = attribs.remove("packed");
        self.block_extent = attribs.remove_list("blockExtent");
        self.compressed = attribs.remove("compressed");
        self.chroma = attribs.remove("chroma");
        Ok(())
    }

    fn parse_child(
        &mut self,
        reader: &mut Reader,
        element: String,
        attribs: &mut Attribs,
    ) -> (r: Result<(), ParseError>) {
        let item = FormatItem::parse(reader, element, attribs)?;
        add_item(&mut self.items, item);
        Ok(())
    }

    fn parse_text(&mut self, text: String) -> (r: Result<(), ParseError>) {
        Err(ParseError::BadContent(String::from_str("format"), text))
    }
}

/// A child of a `format` element.
pub enum FormatItem {
    Component(Component),
    Plane(Plane),
    SpirvImageFormat(SpirvImageFormat),
}

/// `FormatItem` with its strings as character sequences.
pub ghost enum FormatItemView {
    Component(ComponentView),
    Plane(PlaneView),
    SpirvImageFormat(SpirvImageFormatView),
}

impl DeepView for FormatItem {
    type V = FormatItemView;

    open spec fn deep_view(&self) -> FormatItemView {
        match *self {
            FormatItem::Component(x) => FormatItemView::Component(x.deep_view()),
            FormatItem::Plane(x) => FormatItemView::Plane(x.deep_view()),
            FormatItem::SpirvImageFormat(x) => FormatItemView::SpirvImageFormat(x.deep_view()),
        }
    }
}

impl Parse for FormatItem {
    open spec fn spec_read(reader: ReaderView, element: Seq<char>, attribs: AttribsView) -> (
        Result<FormatItemView, ParseErrorView>,
        ReaderView,
    ) {
        if element == "component"@ {
            map_read(
                Component::spec_read(reader, element, attribs),
                |x: ComponentView| FormatItemView::Component(x),
            )
        } else if element == "plane"@ {
            map_read(
                Plane::spec_read(reader, element, attribs),
                |x: PlaneView| FormatItemView::Plane(x),
            )
        } else if element == "spirvimageformat"@ {
            map_read(
                SpirvImageFormat::spec_read(reader, element, attribs),
                |x: SpirvImageFormatView| FormatItemView::SpirvImageFormat(x),
            )
        } else {
            (Err(ParseErrorView::BadChild("format"@, element)), reader)
        }
    }

    fn parse(reader: &mut Reader, element: String, attribs: &mut Attribs) -> (r: Result<
        FormatItem,
        ParseError,
    >) {
        if str_eq(element.as_str(), "component") {
            Ok(FormatItem::Component(Component::parse(reader, element, attribs)?))
        } else if str_eq(element.as_str(), "plane") {
            Ok(FormatItem::Plane(Plane::parse(reader, element, attribs)?))
        } else if str_eq(element.as_str(), "spirvimageformat") {
            Ok(FormatItem::SpirvImageFormat(SpirvImageFormat::parse(reader, element, attribs)?))
        } else {
            Err(ParseError::BadChild(String::from_str("format"), element))
        }
    }
}

/// A component of an image format.
pub struct Component {
    pub name: String,
    pub bits: String,
    pub numeric_format: String,
    pub plane_index: Option<String>,
}

/// `Component` with its strings as character sequences.
pub ghost struct ComponentView {
    pub name: Seq<char>,
    pub bits: Seq<char>,
    pub numeric_format: Seq<char>,
    pub plane_index: Option<Seq<char>>,
}

impl DeepView for Component {
    type V = ComponentView;

    open spec fn deep_view(&self) -> ComponentView {
        ComponentView {
            name: self.name.deep_view(),
            bits: self.bits.deep_view(),
            numeric_format: self.numeric_format.deep_view(),
            plane_index: self.plane_index.deep_view(),
        }
    }
}

impl GenericParse for Component {
    open spec fn spec_name() -> Seq<char> {
        "component"@
    }

    open spec fn spec_empty() -> ComponentView {
        ComponentView {
            name: Seq::empty(),
            bits: Seq::empty(),
            numeric_format: Seq::empty(),
            plane_index: None,
        }
    }

    open spec fn spec_attribs(
        acc: ComponentView,
        element: Seq<char>,
        attribs: AttribsView,
    ) -> Result<
        (ComponentView, AttribsView),
        ParseErrorView,
    > {
        match spec_req(attribs, element, "name"@) {
            Err(e) => Err(e),
            Ok((name, a)) => {
                match spec_req(a, element, "bits"@) {
                    Err(e) => Err(e),
                    Ok((bits, a)) => {
                        match spec_req(a, element, "numericFormat"@) {
                            Err(e) => Err(e),
                            Ok((numeric_format, a)) => {
                                let (plane_index, a) = spec_take(a, "planeIndex"@);
                                Ok((ComponentView { name, bits, numeric_format, plane_index }, a))
                            },
                        }
                    },
                }
            },
        }
    }

    open spec fn spec_child(
        acc: ComponentView,
        reader: ReaderView,
        element: Seq<char>,
        attribs: AttribsView,
    ) -> (Result<ComponentView, ParseErrorView>, ReaderView) {
        (Err(ParseErrorView::BadChild(Self::spec_name(), element)), reader)
    }

    open spec fn spec_text(
        acc: ComponentView,
        text: Seq<char>,
    ) -> Result<ComponentView, ParseErrorView> {
        Err(ParseErrorView::BadContent(Self::spec_name(), text))
    }

    fn name() -> &'static str {
        "component"
    }

    fn empty() -> Component {
        Component {
            name: String::new(),
            bits: String::new(),
            numeric_format: String::new(),
            plane_index: None,
        }
    }

    fn parse_attribs(&mut self, element: &str, attribs: &mut Attribs) -> (r: Result<
        (),
        ParseError,
    >) {
        self.name = attribs.req_attrib(element, "name")?;
        self.bits = attribs.req_attrib(element, "bits")?;
        self.numeric_format = attribs.req_attrib(element, "numericFormat")?;
        self.plane_index = attribs.remove("planeIndex");
        Ok(())
    }

    fn parse_child(
        &mut self,
        reader: &mut Reader,
        element: String,
        attribs: &mut Attribs,
    ) -> (r: Result<(), ParseError>) {
        Err(ParseError::BadChild(String::from_str("component"), element))
    }

    fn parse_text(&mut self, text: String) -> (r: Result<(), ParseError>) {
        Err(ParseError::BadContent(String::from_str("component"), text))
    }
}

/// A plane of a multi-planar image format.
pub struct Plane {
    pub index: String,
    pub width_divisor: String,
    pub height_divisor: String,
    pub compatible: String,
}

/// `Plane` with its strings as character sequences.
pub ghost struct PlaneView {
    pub index: Seq<char>,
    pub width_divisor: Seq<char>,
    pub height_divisor: Seq<char>,
    pub compatible: Seq<char>,
}

impl DeepView for Plane {
    type V = PlaneView;

    open spec fn deep_view(&self) -> PlaneView {
        PlaneView {
            index: self.index.deep_view(),
            width_divisor: self.width_divisor.deep_view(),
            height_divisor: self.height_divisor.deep_view(),
            compatible: self.compatible.deep_view(),
        }
    }
}

impl GenericParse for Plane {
    open spec fn spec_name() -> Seq<char> {
        "plane"@
    }

    open spec fn spec_empty() -> PlaneView {
        PlaneView {
            index: Seq::empty(),
            width_divisor: Seq::empty(),
            height_divisor: Seq::empty(),
            compatible: Seq::empty(),
        }
    }

    open spec fn spec_attribs(acc: PlaneView, element: Seq<char>, attribs: AttribsView) -> Result<
        (PlaneView, AttribsView),
        ParseErrorView,
    > {
        match spec_req(attribs, element, "index"@) {
            Err(e) => Err(e),
            Ok((index, a)) => {
                match spec_req(a, element, "widthDivisor"@) {
                    Err(e) => Err(e),
                    Ok((width_divisor, a)) => {
                        match spec_req(a, element, "heightDivisor"@) {
                            Err(e) => Err(e),
                            Ok((height_divisor, a)) => {
                                match spec_req(a, element, "compatible"@) {
                                    Err(e) => Err(e),
                                    Ok((compatible, a)) => {
                                        Ok(
                                            (
                                                PlaneView {
                                                    index,
                                                    width_divisor,
                                                    height_divisor,
                                                    compatible,
                                                },
                                                a,
                                            ),
                                        )
                                    },
                                }
                            },
                        }
                    },
                }
            },
        }
    }

    open spec fn spec_child(
        acc: PlaneView,
        reader: ReaderView,
        element: Seq<char>,
        attribs: AttribsView,
    ) -> (Result<PlaneView, ParseErrorView>, ReaderView) {
        (Err(ParseErrorView::BadChild(Self::spec_name(), element)), reader)
    }

    open spec fn spec_text(acc: PlaneView, text: Seq<char>) -> Result<PlaneView, ParseErrorView> {
        Err(ParseErrorView::BadContent(Self::spec_name(), text))
    }

    fn name() -> &'static str {
        "plane"
    }

    fn empty() -> Plane {
        Plane {
            index: String::new(),
            width_divisor: String::new(),
            height_divisor: String::new(),
            compatible: String::new(),
        }
    }

    fn parse_attribs(&mut self, element: &str, attribs: &mut Attribs) -> (r: Result<
        (),
        ParseError,
    >) {
        self.index = attribs.req_attrib(element, "index")?;
        self.width_divisor = attribs.req_attrib(element, "widthDivisor")?;
        self.height_divisor = attribs.req_attrib(element, "heightDivisor")?;
        self.compatible = attribs.req_attrib(element, "compatible")?;
        Ok(())
    }

    fn parse_child(
        &mut self,
        reader: &mut Reader,
        element: String,
        attribs: &mut Attribs,
    ) -> (r: Result<(), ParseError>) {
        Err(ParseError::BadChild(String::from_str("plane"), element))
    }

    fn parse_text(&mut self, text: String) -> (r: Result<(), ParseError>) {
        Err(ParseError::BadContent(String::from_str("plane"), text))
    }
}

/// The SPIR-V image format that an image format matches.
pub struct SpirvImageFormat {
    pub name: String,
}

/// `SpirvImageFormat` with its strings as character sequences.
pub ghost struct SpirvImageFormatView {
    pub name: Seq<char>,
}

impl DeepView for SpirvImageFormat {
    type V = SpirvImageFormatView;

    open spec fn deep_view(&self) -> SpirvImageFormatView {
        SpirvImageFormatView {
            name: self.name.deep_view(),
        }
    }
}

impl GenericParse for SpirvImageFormat {
    open spec fn spec_name() -> Seq<char> {
        "spirvimageformat"@
    }

    open spec fn spec_empty() -> SpirvImageFormatView {
        SpirvImageFormatView {
            name: Seq::empty(),
        }
    }

    open spec fn spec_attribs(
        acc: SpirvImageFormatView,
        element: Seq<char>,
        attribs: AttribsView,
    ) -> Result<
        (SpirvImageFormatView, AttribsView),
        ParseErrorView,
    > {
        match spec_req(attribs, element, "name"@) {
            Err(e) => Err(e),
            Ok((name, a)) => {
                Ok((SpirvImageFormatView { name }, a))
            },
        }
    }

    open spec fn spec_child(
        acc: SpirvImageFormatView,
        reader: ReaderView,
        element: Seq<char>,
        attribs: AttribsView,
    ) -> (Result<SpirvImageFormatView, ParseErrorView>, ReaderView) {
        (Err(ParseErrorView::BadChild(Self::spec_name(), element)), reader)
    }

    open spec fn spec_text(
        acc: SpirvImageFormatView,
        text: Seq<char>,
    ) -> Result<SpirvImageFormatView, ParseErrorView> {
        Err(ParseErrorView::BadContent(Self::spec_name(), text))
    }

    fn name() -> &'static str {
        "spirvimageformat"
    }

    fn empty() -> SpirvImageFormat {
        SpirvImageFormat {
            name: String::new(),
        }
    }

    fn parse_attribs(&mut self, element: &str, attribs: &mut Attribs) -> (r: Result<
        (),
        ParseError,
    >) {
        self.name = attribs.req_attrib(element, "name")?;
        Ok(())
    }

    fn parse_child(
        &mut self,
        reader: &mut Reader,
        element: String,
        attribs: &mut Attribs,
    ) -> (r: Result<(), ParseError>) {
        Err(ParseError::BadChild(String::from_str("spirvimageformat"), element))
    }

    fn parse_text(&mut self, text: String) -> (r: Result<(), ParseError>) {
        Err(ParseError::BadContent(String::from_str("spirvimageformat"), text))
    }
}

} // verus!
