//! The `spirvextensions` and `spirvcapabilities` elements.

use vstd::prelude::*;
use vstd::string::*;
use crate::attribs::Attribs;
use crate::attribs::AttribsView;
use crate::attribs::attr_get;
use crate::attribs::spec_req;
use crate::attribs::spec_req_list;
use crate::attribs::spec_take;
use crate::error::ParseError;
use crate::error::ParseErrorView;
use crate::parse::protocol::GenericParse;
use crate::parse::protocol::Parse;
use crate::parse::protocol::Reader;
use crate::parse::protocol::ReaderView;
use crate::parse::protocol::add_item;
use crate::parse::protocol::map_read;
use crate::parse::protocol::no_items;

verus! {

/// The `spirvextensions` element: the list of SPIR-V extensions.
pub struct SpirvExtensions {
    pub items: Vec<SpirvExtension>,
    pub comment: Option<String>,
}

/// `SpirvExtensions` with its strings as character sequences.
pub ghost struct SpirvExtensionsView {
    pub items: Seq<SpirvExtensionView>,
    pub comment: Option<Seq<char>>,
}

impl DeepView for SpirvExtensions {
    type V = SpirvExtensionsView;

    open spec fn deep_view(&self) -> SpirvExtensionsView {
        SpirvExtensionsView {
            items: self.items.deep_view(),
            comment: self.comment.deep_view(),
        }
    }
}

impl GenericParse for SpirvExtensions {
    open spec fn spec_name() -> Seq<char> {
        "spirvextensions"@
    }

    open spec fn spec_empty() -> SpirvExtensionsView {
        SpirvExtensionsView {
            items: Seq::empty(),
            comment: None,
        }
    }

    open spec fn spec_attribs(
        acc: SpirvExtensionsView,
        element: Seq<char>,
        attribs: AttribsView,
    ) -> Result<
        (SpirvExtensionsView, AttribsView),
        ParseErrorView,
    > {
        let (comment, a) = spec_take(attribs, "comment"@);
        Ok((SpirvExtensionsView { comment, ..acc }, a))
    }

    open spec fn spec_child(
        acc: SpirvExtensionsView,
        reader: ReaderView,
        element: Seq<char>,
        attribs: AttribsView,
    ) -> (Result<SpirvExtensionsView, ParseErrorView>, ReaderView) {
        map_read(
            SpirvExtension::spec_read(reader, element, attribs),
            |item: SpirvExtensionView| SpirvExtensionsView { items: acc.items.push(item), ..acc },
        )
    }

    open spec fn spec_text(
        acc: SpirvExtensionsView,
        text: Seq<char>,
    ) -> Result<SpirvExtensionsView, ParseErrorView> {
        Err(ParseErrorView::BadContent(Self::spec_name(), text))
    }

    fn name() -> &'static str {
        "spirvextensions"
    }

    fn empty() -> SpirvExtensions {
        SpirvExtensions {
            items: no_items(),
            comment: None,
        }
    }

    fn parse_attribs(&mut self, element: &str, attribs: &mut Attribs) -> (r: Result<
        (),
        ParseError,
    >) {
        self.comment = attribs.remove("comment");
        Ok(())
    }

    fn parse_child(
        &mut self,
        reader: &mut Reader,
        element: String,
        attribs: &mut Attribs,
    ) -> (r: Result<(), ParseError>) {
        let item = SpirvExtension::parse(reader, element, attribs)?;
        add_item(&mut self.items, item);
        Ok(())
    }

    fn parse_text(&mut self, text: String) -> (r: Result<(), ParseError>) {
        Err(ParseError::BadContent(String::from_str("spirvextensions"), text))
    }
}

/// A SPIR-V extension and what enables it.
pub struct SpirvExtension {
    pub name: String,
    pub items: Vec<SpirvItem>,
}

/// `SpirvExtension` with its strings as character sequences.
pub ghost struct SpirvExtensionView {
    pub name: Seq<char>,
    pub items: Seq<SpirvItemView>,
}

impl DeepView for SpirvExtension {
    type V = SpirvExtensionView;

    open spec fn deep_view(&self) -> SpirvExtensionView {
        SpirvExtensionView {
            name: self.name.deep_view(),
            items: self.items.deep_view(),
        }
    }
}

impl GenericParse for SpirvExtension {
    open spec fn spec_name() -> Seq<char> {
        "spirvextension"@
    }

    open spec fn spec_empty() -> SpirvExtensionView {
        SpirvExtensionView {
            name: Seq::empty(),
            items: Seq::empty(),
        }
    }

    open spec fn spec_attribs(
        acc: SpirvExtensionView,
        element: Seq<char>,
        attribs: AttribsView,
    ) -> Result<
        (SpirvExtensionView, AttribsView),
        ParseErrorView,
    > {
        match spec_req(attribs, element, "name"@) {
            Err(e) => Err(e),
            Ok((name, a)) => {
                Ok((SpirvExtensionView { name, ..acc }, a))
            },
        }
    }

    open spec fn spec_child(
        acc: SpirvExtensionView,
        reader: ReaderView,
        element: Seq<char>,
        attribs: AttribsView,
    ) -> (Result<SpirvExtensionView, ParseErrorView>, ReaderView) {
        map_read(
            SpirvItem::spec_read(reader, element, attribs),
            |item: SpirvItemView| SpirvExtensionView { items: acc.items.push(item), ..acc },
        )
    }

    open spec fn spec_text(
        acc: SpirvExtensionView,
        text: Seq<char>,
    ) -> Result<SpirvExtensionView, ParseErrorView> {
        Err(ParseErrorView::BadContent(Self::spec_name(), text))
    }

    fn name() -> &'static str {
        "spirvextension"
    }

    fn empty() -> SpirvExtension {
        SpirvExtension {
            name: String::new(),
            items: no_items(),
        }
    }

    fn parse_attribs(&mut self, element: &str, attribs: &mut Attribs) -> (r: Result<
        (),
        ParseError,
    >) {
        self.name = attribs.req_attrib(element, "name")?;
        Ok(())
    }

    fn parse_child(
        &mut self,
        reader: &mut Reader,
        element: String,
        attribs: &mut Attribs,
    ) -> (r: Result<(), ParseError>) {
        let item = SpirvItem::parse(reader, element, attribs)?;
        add_item(&mut self.items, item);
        Ok(())
    }

    fn parse_text(&mut self, text: String) -> (r: Result<(), ParseError>) {
        Err(ParseError::BadContent(String::from_str("spirvextension"), text))
    }
}

/// The `spirvcapabilities` element: the list of SPIR-V capabilities.
pub struct SpirvCapabilities {
    pub items: Vec<SpirvCapability>,
    pub comment: Option<String>,
}

/// `SpirvCapabilities` with its strings as character sequences.
pub ghost struct SpirvCapabilitiesView {
    pub items: Seq<SpirvCapabilityView>,
    pub comment: Option<Seq<char>>,
}

impl DeepView for SpirvCapabilities {
    type V = SpirvCapabilitiesView;

    open spec fn deep_view(&self) -> SpirvCapabilitiesView {
        SpirvCapabilitiesView {
            items: self.items.deep_view(),
            comment: self.comment.deep_view(),
        }
    }
}

impl GenericParse for SpirvCapabilities {
    open spec fn spec_name() -> Seq<char> {
        "spirvcapabilities"@
    }

    open spec fn spec_empty() -> SpirvCapabilitiesView {
        SpirvCapabilitiesView {
            items: Seq::empty(),
            comment: None,
        }
    }

    open spec fn spec_attribs(
        acc: SpirvCapabilitiesView,
        element: Seq<char>,
        attribs: AttribsView,
    ) -> Result<
        (SpirvCapabilitiesView, AttribsView),
        ParseErrorView,
    > {
        let (comment, a) = spec_take(attribs, "comment"@);
        Ok((SpirvCapabilitiesView { comment, ..acc }, a))
    }

    open spec fn spec_child(
        acc: SpirvCapabilitiesView,
        reader: ReaderView,
        element: Seq<char>,
        attribs: AttribsView,
    ) -> (Result<SpirvCapabilitiesView, ParseErrorView>, ReaderView) {
        map_read(
            SpirvCapability::spec_read(reader, element, attribs),
            |item: SpirvCapabilityView|
                SpirvCapabilitiesView { items: acc.items.push(item), ..acc },
        )
    }

    open spec fn spec_text(
        acc: SpirvCapabilitiesView,
        text: Seq<char>,
    ) -> Result<SpirvCapabilitiesView, ParseErrorView> {
        Err(ParseErrorView::BadContent(Self::spec_name(), text))
    }

    fn name() -> &'static str {
        "spirvcapabilities"
    }

    fn empty() -> SpirvCapabilities {
        SpirvCapabilities {
            items: no_items(),
            comment: None,
        }
    }

    fn parse_attribs(&mut self, element: &str, attribs: &mut Attribs) -> (r: Result<
        (),
        ParseError,
    >) {
        self.comment = attribs.remove("comment");
        Ok(())
    }

    fn parse_child(
        &mut self,
        reader: &mut Reader,
        element: String,
        attribs: &mut Attribs,
    ) -> (r: Result<(), ParseError>) {
        let item = SpirvCapability::parse(reader, element, attribs)?;
        add_item(&mut self.items, item);
        Ok(())
    }

    fn parse_text(&mut self, text: String) -> (r: Result<(), ParseError>) {
        Err(ParseError::BadContent(String::from_str("spirvcapabilities"), text))
    }
}

/// A SPIR-V capability and what enables it.
pub struct SpirvCapability {
    pub name: String,
    pub items: Vec<SpirvItem>,
}

/// `SpirvCapability` with its strings as character sequences.
pub ghost struct SpirvCapabilityView {
    pub name: Seq<char>,
    pub items: Seq<SpirvItemView>,
}

impl DeepView for SpirvCapability {
    type V = SpirvCapabilityView;

    open spec fn deep_view(&self) -> SpirvCapabilityView {
        SpirvCapabilityView {
            name: self.name.deep_view(),
            items: self.items.deep_view(),
        }
    }
}

impl GenericParse for SpirvCapability {
    open spec fn spec_name() -> Seq<char> {
        "spirvcapability"@
    }

    open spec fn spec_empty() -> SpirvCapabilityView {
        SpirvCapabilityView {
            name: Seq::empty(),
            items: Seq::empty(),
        }
    }

    open spec fn spec_attribs(
        acc: SpirvCapabilityView,
        element: Seq<char>,
        attribs: AttribsView,
    ) -> Result<
        (SpirvCapabilityView, AttribsView),
        ParseErrorView,
    > {
        match spec_req(attribs, element, "name"@) {
            Err(e) => Err(e),
            Ok((name, a)) => {
                Ok((SpirvCapabilityView { name, ..acc }, a))
            },
        }
    }

    open spec fn spec_child(
        acc: SpirvCapabilityView,
        reader: ReaderView,
        element: Seq<char>,
        attribs: AttribsView,
    ) -> (Result<SpirvCapabilityView, ParseErrorView>, ReaderView) {
        map_read(
            SpirvItem::spec_read(reader, element, attribs),
            |item: SpirvItemView| SpirvCapabilityView { items: acc.items.push(item), ..acc },
        )
    }

    open spec fn spec_text(
        acc: SpirvCapabilityView,
        text: Seq<char>,
    ) -> Result<SpirvCapabilityView, ParseErrorView> {
        Err(ParseErrorView::BadContent(Self::spec_name(), text))
    }

    fn name() -> &'static str {
        "spirvcapability"
    }

    fn empty() -> SpirvCapability {
        SpirvCapability {
            name: String::new(),
            items: no_items(),
        }
    }

    fn parse_attribs(&mut self, element: &str, attribs: &mut Attribs) -> (r: Result<
        (),
        ParseError,
    >) {
        self.name = attribs.req_attrib(element, "name")?;
        Ok(())
    }

    fn parse_child(
        &mut self,
        reader: &mut Reader,
        element: String,
        attribs: &mut Attribs,
    ) -> (r: Result<(), ParseError>) {
        let item = SpirvItem::parse(reader, element, attribs)?;
        add_item(&mut self.items, item);
        Ok(())
    }

    fn parse_text(&mut self, text: String) -> (r: Result<(), ParseError>) {
        Err(ParseError::BadContent(String::from_str("spirvcapability"), text))
    }
}

/// A child of a SPIR-V extension or capability.
pub enum SpirvItem {
    Enable(Enable),
}

/// `SpirvItem` with its strings as character sequences.
pub ghost enum SpirvItemView {
    Enable(EnableView),
}

impl DeepView for SpirvItem {
    type V = SpirvItemView;

    open spec fn deep_view(&self) -> SpirvItemView {
        match *self {
            SpirvItem::Enable(x) => SpirvItemView::Enable(x.deep_view()),
        }
    }
}

impl Parse for SpirvItem {
    open spec fn spec_read(reader: ReaderView, element: Seq<char>, attribs: AttribsView) -> (
        Result<SpirvItemView, ParseErrorView>,
        ReaderView,
    ) {
        map_read(
            Enable::spec_read(reader, element, attribs),
            |x: EnableView| SpirvItemView::Enable(x),
        )
    }

    fn parse(reader: &mut Reader, element: String, attribs: &mut Attribs) -> (r: Result<
        SpirvItem,
        ParseError,
    >) {
        Ok(SpirvItem::Enable(Enable::parse(reader, element, attribs)?))
    }
}

/// What enables a SPIR-V extension or capability.
pub enum Enable {
    Version(EnableVersion),
    Extension(EnableExtension),
    Feature(EnableFeature),
    Property(EnableProperty),
}

/// `Enable` with its strings as character sequences.
pub ghost enum EnableView {
    Version(EnableVersionView),
    Extension(EnableExtensionView),
    Feature(EnableFeatureView),
    Property(EnablePropertyView),
}

impl DeepView for Enable {
    type V = EnableView;

    open spec fn deep_view(&self) -> EnableView {
        match *self {
            Enable::Version(x) => EnableView::Version(x.deep_view()),
            Enable::Extension(x) => EnableView::Extension(x.deep_view()),
            Enable::Feature(x) => EnableView::Feature(x.deep_view()),
            Enable::Property(x) => EnableView::Property(x.deep_view()),
        }
    }
}

impl Parse for Enable {
    open spec fn spec_read(reader: ReaderView, element: Seq<char>, attribs: AttribsView) -> (
        Result<EnableView, ParseErrorView>,
        ReaderView,
    ) {
        if attr_get(attribs, "version"@) is Some {
            map_read(
                EnableVersion::spec_read(reader, element, attribs),
                |x: EnableVersionView| EnableView::Version(x),
            )
        } else if attr_get(attribs, "extension"@) is Some {
            map_read(
                EnableExtension::spec_read(reader, element, attribs),
                |x: EnableExtensionView| EnableView::Extension(x),
            )
        } else if attr_get(attribs, "feature"@) is Some {
            map_read(
                EnableFeature::spec_read(reader, element, attribs),
                |x: EnableFeatureView| EnableView::Feature(x),
            )
        } else if attr_get(attribs, "property"@) is Some {
            map_read(
                EnableProperty::spec_read(reader, element, attribs),
                |x: EnablePropertyView| EnableView::Property(x),
            )
        } else {
            (Err(ParseErrorView::BadStart(element)), reader)
        }
    }

    fn parse(reader: &mut Reader, element: String, attribs: &mut Attribs) -> (r: Result<
        Enable,
        ParseError,
    >) {
        if attribs.contains_key("version") {
            Ok(Enable::Version(EnableVersion::parse(reader, element, attribs)?))
        } else if attribs.contains_key("extension") {
            Ok(Enable::Extension(EnableExtension::parse(reader, element, attribs)?))
        } else if attribs.contains_key("feature") {
            Ok(Enable::Feature(EnableFeature::parse(reader, element, attribs)?))
        } else if attribs.contains_key("property") {
            Ok(Enable::Property(EnableProperty::parse(reader, element, attribs)?))
        } else {
            Err(ParseError::BadStart(element))
        }
    }
}

/// Enabled by a core version.
pub struct EnableVersion {
    pub version: String,
}

/// `EnableVersion` with its strings as character sequences.
pub ghost struct EnableVersionView {
    pub version: Seq<char>,
}

impl DeepView for EnableVersion {
    type V = EnableVersionView;

    open spec fn deep_view(&self) -> EnableVersionView {
        EnableVersionView {
            version: self.version.deep_view(),
        }
    }
}

impl GenericParse for EnableVersion {
    open spec fn spec_name() -> Seq<char> {
        "enable"@
    }

    open spec fn spec_empty() -> EnableVersionView {
        EnableVersionView {
            version: Seq::empty(),
        }
    }

    open spec fn spec_attribs(
        acc: EnableVersionView,
        element: Seq<char>,
        attribs: AttribsView,
    ) -> Result<
        (EnableVersionView, AttribsView),
        ParseErrorView,
    > {
        match spec_req(attribs, element, "version"@) {
            Err(e) => Err(e),
            Ok((version, a)) => {
                Ok((EnableVersionView { version }, a))
            },
        }
    }

    open spec fn spec_child(
        acc: EnableVersionView,
        reader: ReaderView,
        element: Seq<char>,
        attribs: AttribsView,
    ) -> (Result<EnableVersionView, ParseErrorView>, ReaderView) {
        (Err(ParseErrorView::BadChild(Self::spec_name(), element)), reader)
    }

    open spec fn spec_text(
        acc: EnableVersionView,
        text: Seq<char>,
    ) -> Result<EnableVersionView, ParseErrorView> {
        Err(ParseErrorView::BadContent(Self::spec_name(), text))
    }

    fn name() -> &'static str {
        "enable"
    }

    fn empty() -> EnableVersion {
        EnableVersion {
            version: String::new(),
        }
    }

    fn parse_attribs(&mut self, element: &str, attribs: &mut Attribs) -> (r: Result<
        (),
        ParseError,
    >) {
        self.version = attribs.req_attrib(element, "version")?;
        Ok(())
    }

    fn parse_child(
        &mut self,
        reader: &mut Reader,
        element: String,
        attribs: &mut Attribs,
    ) -> (r: Result<(), ParseError>) {
        Err(ParseError::BadChild(String::from_str("enable"), element))
    }

    fn parse_text(&mut self, text: String) -> (r: Result<(), ParseError>) {
        Err(ParseError::BadContent(String::from_str("enable"), text))
    }
}

/// Enabled by an extension.
pub struct EnableExtension {
    pub extension: String,
}

/// `EnableExtension` with its strings as character sequences.
pub ghost struct EnableExtensionView {
    pub extension: Seq<char>,
}

impl DeepView for EnableExtension {
    type V = EnableExtensionView;

    open spec fn deep_view(&self) -> EnableExtensionView {
        EnableExtensionView {
            extension: self.extension.deep_view(),
        }
    }
}

impl GenericParse for EnableExtension {
    open spec fn spec_name() -> Seq<char> {
        "enable"@
    }

    open spec fn spec_empty() -> EnableExtensionView {
        EnableExtensionView {
            extension: Seq::empty(),
        }
    }

    open spec fn spec_attribs(
        acc: EnableExtensionView,
        element: Seq<char>,
        attribs: AttribsView,
    ) -> Result<
        (EnableExtensionView, AttribsView),
        ParseErrorView,
    > {
        match spec_req(attribs, element, "extension"@) {
            Err(e) => Err(e),
            Ok((extension, a)) => {
                Ok((EnableExtensionView { extension }, a))
            },
        }
    }

    open spec fn spec_child(
        acc: EnableExtensionView,
        reader: ReaderView,
        element: Seq<char>,
        attribs: AttribsView,
    ) -> (Result<EnableExtensionView, ParseErrorView>, ReaderView) {
        (Err(ParseErrorView::BadChild(Self::spec_name(), element)), reader)
    }

    open spec fn spec_text(
        acc: EnableExtensionView,
        text: Seq<char>,
    ) -> Result<EnableExtensionView, ParseErrorView> {
        Err(ParseErrorView::BadContent(Self::spec_name(), text))
    }

    fn name() -> &'static str {
        "enable"
    }

    fn empty() -> EnableExtension {
        EnableExtension {
            extension: String::new(),
        }
    }

    fn parse_attribs(&mut self, element: &str, attribs: &mut Attribs) -> (r: Result<
        (),
        ParseError,
    >) {
        self.extension = attribs.req_attrib(element, "extension")?;
        Ok(())
    }

    fn parse_child(
        &mut self,
        reader: &mut Reader,
        element: String,
        attribs: &mut Attribs,
    ) -> (r: Result<(), ParseError>) {
        Err(ParseError::BadChild(String::from_str("enable"), element))
    }

    fn parse_text(&mut self, text: String) -> (r: Result<(), ParseError>) {
        Err(ParseError::BadContent(String::from_str("enable"), text))
    }
}

/// Enabled by a member of a feature structure.
pub struct EnableFeature {
    pub struct_name: String,
    pub feature: String,
    pub requires: Vec<String>,
    pub alias: Option<String>,
}

/// `EnableFeature` with its strings as character sequences.
pub ghost struct EnableFeatureView {
    pub struct_name: Seq<char>,
    pub feature: Seq<char>,
    pub requires: Seq<Seq<char>>,
    pub alias: Option<Seq<char>>,
}

impl DeepView for EnableFeature {
    type V = EnableFeatureView;

    open spec fn deep_view(&self) -> EnableFeatureView {
        EnableFeatureView {
            struct_name: self.struct_name.deep_view(),
            feature: self.feature.deep_view(),
            requires: self.requires.deep_view(),
            alias: self.alias.deep_view(),
        }
    }
}

impl GenericParse for EnableFeature {
    open spec fn spec_name() -> Seq<char> {
        "enable"@
    }

    open spec fn spec_empty() -> EnableFeatureView {
        EnableFeatureView {
            struct_name: Seq::empty(),
            feature: Seq::empty(),
            requires: Seq::empty(),
            alias: None,
        }
    }

    open spec fn spec_attribs(
        acc: EnableFeatureView,
        element: Seq<char>,
        attribs: AttribsView,
    ) -> Result<
        (EnableFeatureView, AttribsView),
        ParseErrorView,
    > {
        match spec_req(attribs, element, "struct"@) {
            Err(e) => Err(e),
            Ok((struct_name, a)) => {
                match spec_req(a, element, "feature"@) {
                    Err(e) => Err(e),
                    Ok((feature, a)) => {
                        match spec_req_list(a, element, "requires"@) {
                            Err(e) => Err(e),
                            Ok((required, a)) => {
                                let (alias, a) = spec_take(a, "alias"@);
                                Ok(
                                    (
                                        EnableFeatureView {
                                            struct_name,
                                            feature,
                                            requires: required,
                                            alias,
                                        },
                                        a,
                                    ),
                                )
                            },
                        }
                    },
                }
            },
        }
    }

    open spec fn spec_child(
        acc: EnableFeatureView,
        reader: ReaderView,
        element: Seq<char>,
        attribs: AttribsView,
    ) -> (Result<EnableFeatureView, ParseErrorView>, ReaderView) {
        (Err(ParseErrorView::BadChild(Self::spec_name(), element)), reader)
    }

    open spec fn spec_text(
        acc: EnableFeatureView,
        text: Seq<char>,
    ) -> Result<EnableFeatureView, ParseErrorView> {
        Err(ParseErrorView::BadContent(Self::spec_name(), text))
    }

    fn name() -> &'static str {
        "enable"
    }

    fn empty() -> EnableFeature {
        EnableFeature {
            struct_name: String::new(),
            feature: String::new(),
            requires: no_items(),
            alias: None,
        }
    }

    fn parse_attribs(&mut self, element: &str, attribs: &mut Attribs) -> (r: Result<
        (),
        ParseError,
    >) {
        self.struct_name = attribs.req_attrib(element, "struct")?;
        self.feature = attribs.req_attrib(element, "feature")?;
        self.requires = attribs.req_list(element, "requires")?;
        self.alias = attribs.remove("alias");
        Ok(())
    }

    fn parse_child(
        &mut self,
        reader: &mut Reader,
        element: String,
        attribs: &mut Attribs,
    ) -> (r: Result<(), ParseError>) {
        Err(ParseError::BadChild(String::from_str("enable"), element))
    }

    fn parse_text(&mut self, text: String) -> (r: Result<(), ParseError>) {
        Err(ParseError::BadContent(String::from_str("enable"), text))
    }
}

/// Enabled by the value of a member of a property structure.
pub struct EnableProperty {
    pub property: String,
    pub member: String,
    pub value: String,
    pub requires: Vec<String>,
}

/// `EnableProperty` with its strings as character sequences.
pub ghost struct EnablePropertyView {
    pub property: Seq<char>,
    pub member: Seq<char>,
    pub value: Seq<char>,
    pub requires: Seq<Seq<char>>,
}

impl DeepView for EnableProperty {
    type V = EnablePropertyView;

    open spec fn deep_view(&self) -> EnablePropertyView {
        EnablePropertyView {
            property: self.property.deep_view(),
            member: self.member.deep_view(),
            value: self.value.deep_view(),
            requires: self.requires.deep_view(),
        }
    }
}

impl GenericParse for EnableProperty {
    open spec fn spec_name() -> Seq<char> {
        "enable"@
    }

    open spec fn spec_empty() -> EnablePropertyView {
        EnablePropertyView {
            property: Seq::empty(),
            member: Seq::empty(),
            value: Seq::empty(),
            requires: Seq::empty(),
        }
    }

    open spec fn spec_attribs(
        acc: EnablePropertyView,
        element: Seq<char>,
        attribs: AttribsView,
    ) -> Result<
        (EnablePropertyView, AttribsView),
        ParseErrorView,
    > {
        match spec_req(attribs, element, "property"@) {
            Err(e) => Err(e),
            Ok((property, a)) => {
                match spec_req(a, element, "member"@) {
                    Err(e) => Err(e),
                    Ok((member, a)) => {
                        match spec_req(a, element, "value"@) {
                            Err(e) => Err(e),
                            Ok((value, a)) => {
                                match spec_req_list(a, element, "requires"@) {
                                    Err(e) => Err(e),
                                    Ok((required, a)) => {
                                        Ok(
                                            (
                                                EnablePropertyView {
                                                    property,
                                                    member,
                                                    value,
                                                    requires: required,
                                                },
                                                a,
                                            ),
                                        )
                                    },
                                }
                            },
                        }
                    },
                }
            },
        }
    }

    open spec fn spec_child(
        acc: EnablePropertyView,
        reader: ReaderView,
        element: Seq<char>,
        attribs: AttribsView,
    ) -> (Result<EnablePropertyView, ParseErrorView>, ReaderView) {
        (Err(ParseErrorView::BadChild(Self::spec_name(), element)), reader)
    }

    open spec fn spec_text(
        acc: EnablePropertyView,
        text: Seq<char>,
    ) -> Result<EnablePropertyView, ParseErrorView> {
        Err(ParseErrorView::BadContent(Self::spec_name(), text))
    }

    fn name() -> &'static str {
        "enable"
    }

    fn empty() -> EnableProperty {
        EnableProperty {
            property: String::new(),
            member: String::new(),
            value: String::new(),
            requires: no_items(),
        }
    }

    fn parse_attribs(&mut self, element: &str, attribs: &mut Attribs) -> (r: Result<
        (),
        ParseError,
    >) {
        self.property = attribs.req_attrib(element, "property")?;
        self.member = attribs.req_attrib(element, "member")?;
        self.value = attribs.req_attrib(element, "value")?;
        self.requires = attribs.req_list(element, "requires")?;
        Ok(())
    }

    fn parse_child(
        &mut self,
        reader: &mut Reader,
        element: String,
        attribs: &mut Attribs,
    ) -> (r: Result<(), ParseError>) {
        Err(ParseError::BadChild(String::from_str("enable"), element))
    }

    fn parse_text(&mut self, text: String) -> (r: Result<(), ParseError>) {
        Err(ParseError::BadContent(String::from_str("enable"), text))
    }
}

} // verus!
