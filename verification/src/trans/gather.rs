//! Features, and what each of them introduces.
//!
//! The features of the registry are its platforms, its core versions and its extensions, in
//! the order of the document; the extensions of one list in ascending order of their
//! numbers. Every type and command that a feature requires is noted with the feature: the
//! first feature that requires it introduces it. An enumerant that a feature adds to an
//! enumeration that stands elsewhere is a patch.

use vstd::prelude::*;
use vstd::string::*;
use crate::error::TransError;
use crate::error::TransErrorView;
use crate::names::constant_output_name;
use crate::names::spec_constant_name;
use crate::parse::features::Extension;
use crate::parse::features::ExtensionItem;
use crate::parse::features::ExtensionItemView;
use crate::parse::features::ExtensionView;
use crate::parse::features::FeatureItem;
use crate::parse::features::FeatureItemView;
use crate::parse::features::Require;
use crate::parse::features::RequireEnum;
use crate::parse::features::RequireEnumDetails;
use crate::parse::features::RequireEnumDetailsView;
use crate::parse::features::RequireEnumView;
use crate::parse::features::RequireItem;
use crate::parse::features::RequireItemView;
use crate::parse::features::RequireView;
use crate::parse::registry::Platform;
use crate::parse::registry::PlatformView;
use crate::parse::registry::Registry;
use crate::parse::registry::RegistryItem;
use crate::parse::registry::RegistryItemView;
use crate::parse::registry::RegistryView;
use crate::parse::values::Dir;
use crate::repr::CoreFeature;
use crate::repr::CoreFeatureView;
use crate::repr::EnumNumber;
use crate::repr::EnumNumberView;
use crate::repr::EnumValue;
use crate::repr::EnumValueView;
use crate::repr::Feature;
use crate::repr::FeatureDetails;
use crate::repr::FeatureDetailsView;
use crate::repr::FeatureHandle;
use crate::repr::FeatureHeader;
use crate::repr::FeatureHeaderView;
use crate::repr::FeatureView;
use crate::repr::features_live;
use crate::repr::opt_feature_live;
use crate::trans::lookup::MAX_ENTRIES;
use crate::trans::lookup::NameMap;
use crate::trans::lookup::NameMapView;
use crate::trans::lookup::api_ok;
use crate::trans::lookup::api_text_ok;
use crate::trans::lookup::find;
use crate::trans::lookup::is_result;
use crate::trans::lookup::spec_api_ok;
use crate::trans::lookup::spec_api_text_ok;
use crate::trans::lookup::spec_find;
use crate::trans::numbers::parse_i64;
use crate::trans::numbers::parse_u64;
use crate::trans::numbers::spec_parse_i64;
use crate::trans::numbers::spec_parse_u64;

verus! {

/// An enumerant that a feature adds to the enumeration named `target`.
pub struct Patch {
    pub target: String,
    pub value: EnumValue,
}

/// `Patch` with its strings as character sequences.
pub ghost struct PatchView {
    pub target: Seq<char>,
    pub value: EnumValueView,
}

impl DeepView for Patch {
    type V = PatchView;

    open spec fn deep_view(&self) -> PatchView {
        PatchView { target: self.target@, value: self.value.deep_view() }
    }
}

/// What the features of a registry come to.
pub struct Gathered {
    pub features: Vec<Feature>,
    /// The types that features require, each with the feature, in the order of the features.
    pub types: NameMap<FeatureHandle>,
    /// The commands that features require, each with the feature, in the order of the
    /// features.
    pub commands: NameMap<FeatureHandle>,
    /// The enumerants that features add to enumerations, in the order of the features.
    pub patches: Vec<Patch>,
}

/// `Gathered` with its strings as character sequences.
pub ghost struct GatheredView {
    pub features: Seq<FeatureView>,
    pub types: NameMapView<FeatureHandle>,
    pub commands: NameMapView<FeatureHandle>,
    pub patches: Seq<PatchView>,
}

impl DeepView for Gathered {
    type V = GatheredView;

    open spec fn deep_view(&self) -> GatheredView {
        GatheredView {
            features: self.features.deep_view(),
            types: self.types.deep_view(),
            commands: self.commands.deep_view(),
            patches: self.patches.deep_view(),
        }
    }
}

impl GatheredView {
    /// Nothing gathered yet.
    pub open spec fn empty() -> GatheredView {
        GatheredView {
            features: Seq::empty(),
            types: NameMapView { names: Seq::empty(), values: Seq::empty() },
            commands: NameMapView { names: Seq::empty(), values: Seq::empty() },
            patches: Seq::empty(),
        }
    }

    /// Whether every feature handle gathered refers to a feature gathered.
    pub open spec fn live(self) -> bool {
        let f = self.features.len();
        &&& self.types.names.len() == self.types.values.len()
        &&& self.commands.names.len() == self.commands.values.len()
        &&& features_live(self.types.values, f)
        &&& features_live(self.commands.values, f)
        &&& forall|i: int|
            0 <= i < self.patches.len() ==> opt_feature_live(
                (#[trigger] self.patches[i]).value.feature,
                f,
            )
    }
}

/// The first value of the range of enumerants that extensions share.
pub const EXTENSION_BASE: u64 = 1_000_000_000;

/// The size of the range of one extension.
pub const EXTENSION_RANGE: u64 = 1000;

/// The value of an enumerant that is given as an offset into the range of an extension:
/// `base + (number - 1) * range + offset`, negated where the direction is `-`. There is none
/// for an extension number of zero, nor where the value does not fit.
pub open spec fn spec_offset_value(number: u64, offset: u64, dir: Option<Dir>) -> Option<i64> {
    let v = EXTENSION_BASE + (number - 1) * EXTENSION_RANGE + offset;
    if number == 0 || v > i64::MAX {
        None
    } else if dir == Some(Dir::Neg) {
        Some((-v) as i64)
    } else {
        Some(v as i64)
    }
}

/// The value of an enumerant that is given as an offset into the range of an extension.
pub fn offset_value(number: u64, offset: u64, dir: Option<Dir>) -> (r: Option<i64>)
    ensures
        r == spec_offset_value(number, offset, dir),
{
    if number == 0 {
        return None;
    }
    let scaled = match (number - 1).checked_mul(EXTENSION_RANGE) {
        Some(v) => v,
        None => {
            return None;
        },
    };
    let based = match scaled.checked_add(EXTENSION_BASE) {
        Some(v) => v,
        None => {
            return None;
        },
    };
    let v = match based.checked_add(offset) {
        Some(v) => v,
        None => {
            return None;
        },
    };
    if v > 0x7fff_ffff_ffff_ffff {
        None
    } else {
        match dir {
            Some(Dir::Neg) => Some(-(v as i64)),
            _ => Some(v as i64),
        }
    }
}

/// What a required enumerant stands for, if it is a new one. `number` is the number of the
/// extension that requires it.
pub open spec fn spec_patch_number(details: RequireEnumDetailsView, number: Option<u64>) -> Result<
    Option<EnumNumberView>,
    TransErrorView,
> {
    match details {
        RequireEnumDetailsView::Value(d) => match d.value {
            None => Ok(None),
            Some(text) => match spec_parse_i64(text) {
                Some(v) => Ok(Some(EnumNumberView::Value(v))),
                None => Err(TransErrorView::BadType),
            },
        },
        RequireEnumDetailsView::Offset(d) => {
            let ext = match d.ext_number {
                Some(text) => spec_parse_u64(text),
                None => number,
            };
            match (ext, spec_parse_u64(d.offset)) {
                (Some(ext), Some(offset)) => match spec_offset_value(ext, offset, d.dir) {
                    Some(v) => Ok(Some(EnumNumberView::Value(v))),
                    None => Err(TransErrorView::BadType),
                },
                _ => Err(TransErrorView::BadType),
            }
        },
        RequireEnumDetailsView::Bit(d) => match spec_parse_u64(d.bit_pos) {
            Some(bit) => if bit < 64 {
                Ok(Some(EnumNumberView::Bit(bit as u32)))
            } else {
                Err(TransErrorView::BadType)
            },
            None => Err(TransErrorView::BadType),
        },
        RequireEnumDetailsView::Alias(d) => Ok(Some(EnumNumberView::Alias(d.alias))),
    }
}

/// The patch that a required enumerant is, if it is one: it must belong to the API, extend an
/// enumeration and be a new enumerant.
pub open spec fn spec_patch(
    e: RequireEnumView,
    handle: FeatureHandle,
    number: Option<u64>,
) -> Result<
    Option<PatchView>,
    TransErrorView,
> {
    if !spec_api_ok(e.common.api) {
        Ok(None)
    } else {
        match e.common.extends {
            None => Ok(None),
            Some(target) => match spec_patch_number(e.details, number) {
                Err(err) => Err(err),
                Ok(None) => Ok(None),
                Ok(Some(n)) => Ok(
                    Some(
                        PatchView {
                            target,
                            value: EnumValueView {
                                standard_name: e.common.name,
                                output_name: spec_constant_name(e.common.name),
                                number: n,
                                feature: Some(handle),
                            },
                        },
                    ),
                ),
            },
        }
    }
}

/// What is gathered after one item of a `require` block.
pub open spec fn spec_require_item(
    g: GatheredView,
    item: RequireItemView,
    handle: FeatureHandle,
    number: Option<u64>,
) -> Result<GatheredView, TransErrorView> {
    match item {
        RequireItemView::Type(t) => Ok(
            GatheredView { types: g.types.with(t.name, handle), ..g },
        ),
        RequireItemView::Command(c) => Ok(
            GatheredView { commands: g.commands.with(c.name, handle), ..g },
        ),
        RequireItemView::Enum(e) => match spec_patch(e, handle, number) {
            Err(err) => Err(err),
            Ok(None) => Ok(g),
            Ok(Some(p)) => Ok(GatheredView { patches: g.patches.push(p), ..g }),
        },
        _ => Ok(g),
    }
}

/// What is gathered after the items of a `require` block from `i` on.
pub open spec fn spec_require_items(
    g: GatheredView,
    items: Seq<RequireItemView>,
    i: int,
    handle: FeatureHandle,
    number: Option<u64>,
) -> Result<GatheredView, TransErrorView>
    decreases items.len() - i,
{
    if i < 0 || i >= items.len() {
        Ok(g)
    } else {
        match spec_require_item(g, items[i], handle, number) {
            Err(e) => Err(e),
            Ok(g) => spec_require_items(g, items, i + 1, handle, number),
        }
    }
}

/// What is gathered after a `require` block. A block for another API is left out.
pub open spec fn spec_require(
    g: GatheredView,
    r: RequireView,
    handle: FeatureHandle,
    number: Option<u64>,
) -> Result<GatheredView, TransErrorView> {
    if spec_api_text_ok(r.api) {
        spec_require_items(g, r.items, 0, handle, number)
    } else {
        Ok(g)
    }
}

/// What is gathered after the children of a core version from `i` on.
pub open spec fn spec_feature_items(
    g: GatheredView,
    items: Seq<FeatureItemView>,
    i: int,
    handle: FeatureHandle,
) -> Result<GatheredView, TransErrorView>
    decreases items.len() - i,
{
    if i < 0 || i >= items.len() {
        Ok(g)
    } else {
        let step = match items[i] {
            FeatureItemView::Require(r) => spec_require(g, r, handle, None),
            _ => Ok(g),
        };
        match step {
            Err(e) => Err(e),
            Ok(g) => spec_feature_items(g, items, i + 1, handle),
        }
    }
}

/// What is gathered after the children of an extension from `i` on.
pub open spec fn spec_extension_items(
    g: GatheredView,
    items: Seq<ExtensionItemView>,
    i: int,
    handle: FeatureHandle,
    number: u64,
) -> Result<GatheredView, TransErrorView>
    decreases items.len() - i,
{
    if i < 0 || i >= items.len() {
        Ok(g)
    } else {
        let step = match items[i] {
            ExtensionItemView::Require(r) => spec_require(g, r, handle, Some(number)),
            _ => Ok(g),
        };
        match step {
            Err(e) => Err(e),
            Ok(g) => spec_extension_items(g, items, i + 1, handle, number),
        }
    }
}

/// The feature that an extension is.
pub open spec fn spec_extension_feature(e: ExtensionView, number: u64) -> FeatureView {
    FeatureView {
        header: FeatureHeaderView {
            standard_name: e.name,
            output_name: spec_constant_name(e.name),
        },
        details: FeatureDetailsView::Extension(
            crate::repr::ExtensionView { number, platform: e.platform },
        ),
    }
}

/// What is gathered after an extension. An extension that the API does not support is left
/// out; one whose number is no number is an error, and so is one feature too many.
pub open spec fn spec_extension(g: GatheredView, e: ExtensionView) -> Result<
    GatheredView,
    TransErrorView,
> {
    if spec_find(e.supported_api, "vulkan"@, 0) is None {
        Ok(g)
    } else if g.features.len() >= MAX_ENTRIES {
        Err(TransErrorView::BadType)
    } else {
        match spec_parse_u64(e.number) {
            None => Err(TransErrorView::BadType),
            Some(number) => {
                let features = g.features.push(spec_extension_feature(e, number));
                spec_extension_items(
                    GatheredView { features, ..g },
                    e.items,
                    0,
                    FeatureHandle(features.len() as usize),
                    number,
                )
            },
        }
    }
}

/// The number by which an extension is ordered: its own, or the greatest there is where its
/// number is no number.
pub open spec fn spec_sort_key(e: ExtensionView) -> u64 {
    match spec_parse_u64(e.number) {
        Some(n) => n,
        None => u64::MAX,
    }
}

/// Where an extension of the given key goes among the extensions ordered so far, looking from
/// `p` on: before the first whose key is greater, so behind every one whose key is the same.
pub open spec fn spec_place(items: Seq<ExtensionView>, order: Seq<usize>, key: u64, p: int) -> int
    decreases order.len() - p,
{
    if p < 0 || p >= order.len() {
        order.len() as int
    } else if order[p] < items.len() && spec_sort_key(items[order[p] as int]) > key {
        p
    } else {
        spec_place(items, order, key, p + 1)
    }
}

/// The order in which extensions are taken in: ascending by number, and in the order of the
/// document among those of one number. The extensions from `k` on are put in their places
/// among those ordered so far; an extension is named by its index.
pub open spec fn spec_order(items: Seq<ExtensionView>, k: int, order: Seq<usize>) -> Seq<usize>
    decreases items.len() - k,
{
    if k < 0 || k >= items.len() {
        order
    } else {
        spec_order(
            items,
            k + 1,
            order.insert(spec_place(items, order, spec_sort_key(items[k]), 0), k as usize),
        )
    }
}

/// What is gathered after the extensions that `order` names from its place `i` on.
pub open spec fn spec_extensions(
    g: GatheredView,
    items: Seq<ExtensionView>,
    order: Seq<usize>,
    i: int,
) -> Result<GatheredView, TransErrorView>
    decreases order.len() - i,
{
    if i < 0 || i >= order.len() {
        Ok(g)
    } else if order[i] < items.len() {
        match spec_extension(g, items[order[i] as int]) {
            Err(e) => Err(e),
            Ok(g) => spec_extensions(g, items, order, i + 1),
        }
    } else {
        spec_extensions(g, items, order, i + 1)
    }
}

/// The feature that a platform is.
pub open spec fn spec_platform_feature(p: PlatformView) -> FeatureView {
    FeatureView {
        header: FeatureHeaderView { standard_name: p.name, output_name: p.name },
        details: FeatureDetailsView::Platform(crate::repr::PlatformView { protect: p.protect }),
    }
}

/// The features after the platforms from `i` on.
pub open spec fn spec_platforms(
    features: Seq<FeatureView>,
    items: Seq<PlatformView>,
    i: int,
) -> Seq<
    FeatureView,
>
    decreases items.len() - i,
{
    if i < 0 || i >= items.len() {
        features
    } else {
        spec_platforms(features.push(spec_platform_feature(items[i])), items, i + 1)
    }
}

/// The feature that a core version is.
pub open spec fn spec_core_feature(f: crate::parse::features::FeatureView) -> FeatureView {
    FeatureView {
        header: FeatureHeaderView {
            standard_name: f.name,
            output_name: spec_constant_name(f.name),
        },
        details: FeatureDetailsView::Core(CoreFeatureView { number: f.number }),
    }
}

/// What is gathered after one item of the registry.
pub open spec fn spec_gather_item(g: GatheredView, item: RegistryItemView) -> Result<
    GatheredView,
    TransErrorView,
> {
    match item {
        RegistryItemView::Platforms(p) => Ok(
            GatheredView { features: spec_platforms(g.features, p.items, 0), ..g },
        ),
        RegistryItemView::Feature(f) => if g.features.len() >= MAX_ENTRIES {
            Err(TransErrorView::BadType)
        } else {
            let features = g.features.push(spec_core_feature(f));
            spec_feature_items(
                GatheredView { features, ..g },
                f.items,
                0,
                FeatureHandle(features.len() as usize),
            )
        },
        RegistryItemView::Extensions(e) => spec_extensions(
            g,
            e.items,
            spec_order(e.items, 0, Seq::empty()),
            0,
        ),
        _ => Ok(g),
    }
}

/// What is gathered after the items of the registry from `i` on.
pub open spec fn spec_gather_items(g: GatheredView, items: Seq<RegistryItemView>, i: int) -> Result<
    GatheredView,
    TransErrorView,
>
    decreases items.len() - i,
{
    if i < 0 || i >= items.len() {
        Ok(g)
    } else {
        match spec_gather_item(g, items[i]) {
            Err(e) => Err(e),
            Ok(g) => spec_gather_items(g, items, i + 1),
        }
    }
}

/// The features of a registry and what they introduce.
pub open spec fn spec_gather(registry: RegistryView) -> Result<GatheredView, TransErrorView> {
    spec_gather_items(GatheredView::empty(), registry.items, 0)
}

/// Reads what a required enumerant stands for.
fn patch_number(details: &RequireEnumDetails, number: Option<u64>) -> (r: Result<
    Option<EnumNumber>,
    TransError,
>)
    ensures
        is_result(r, spec_patch_number(details.deep_view(), number)),
{
    match details {
        RequireEnumDetails::Value(d) => match &d.value {
            None => Ok(None),
            Some(text) => match parse_i64(text.as_str()) {
                Some(v) => Ok(Some(EnumNumber::Value(v))),
                None => Err(TransError::BadType),
            },
        },
        RequireEnumDetails::Offset(d) => {
            let ext = match &d.ext_number {
                Some(text) => parse_u64(text.as_str()),
                None => number,
            };
            match (ext, parse_u64(d.offset.as_str())) {
                (Some(ext), Some(offset)) => match offset_value(ext, offset, d.dir) {
                    Some(v) => Ok(Some(EnumNumber::Value(v))),
                    None => Err(TransError::BadType),
                },
                _ => Err(TransError::BadType),
            }
        },
        RequireEnumDetails::Bit(d) => match parse_u64(d.bit_pos.as_str()) {
            Some(bit) => if bit < 64 {
                Ok(Some(EnumNumber::Bit(bit as u32)))
            } else {
                Err(TransError::BadType)
            },
            None => Err(TransError::BadType),
        },
        RequireEnumDetails::Alias(d) => Ok(Some(EnumNumber::Alias(d.alias.clone()))),
    }
}

/// Makes the patch that a required enumerant is, if it is one.
fn patch(e: &RequireEnum, handle: FeatureHandle, number: Option<u64>) -> (r: Result<
    Option<Patch>,
    TransError,
>)
    ensures
        is_result(r, spec_patch(e.deep_view(), handle, number)),
{
    if !api_ok(&e.common.api) {
        return Ok(None);
    }
    match &e.common.extends {
        None => Ok(None),
        Some(target) => match patch_number(&e.details, number)? {
            None => Ok(None),
            Some(n) => Ok(
                Some(
                    Patch {
                        target: target.clone(),
                        value: EnumValue {
                            standard_name: e.common.name.clone(),
                            output_name: constant_output_name(e.common.name.as_str()),
                            number: n,
                            feature: Some(handle),
                        },
                    },
                ),
            ),
        },
    }
}

/// The number by which an extension is ordered.
fn sort_key(e: &Extension) -> (r: u64)
    ensures
        r == spec_sort_key(e.deep_view()),
{
    match parse_u64(e.number.as_str()) {
        Some(n) => n,
        None => u64::MAX,
    }
}

/// Puts the extensions in the order in which they are taken in.
fn order_of(items: &Vec<Extension>) -> (order: Vec<usize>)
    ensures
        order.deep_view() == spec_order(items.deep_view(), 0, Seq::empty()),
{
    let mut order: Vec<usize> = Vec::new();
    let mut k: usize = 0;
    let ghost views = items.deep_view();
    proof {
        assert(order.deep_view() =~= Seq::<usize>::empty());
    }
    while k < items.len()
        invariant
            views == items.deep_view(),
            k <= items.len(),
            spec_order(views, k as int, order.deep_view()) == spec_order(views, 0, Seq::empty()),
        decreases items.len() - k,
    {
        let key = sort_key(&items[k]);
        let mut p: usize = 0;
        let ghost places = order.deep_view();
        proof {
            assert(views[k as int] == items@[k as int].deep_view());
        }
        while p < order.len() && !(order[p] < items.len() && sort_key(&items[order[p]]) > key)
            invariant
                views == items.deep_view(),
                places == order.deep_view(),
                p <= order.len(),
                spec_place(views, places, key, p as int) == spec_place(views, places, key, 0),
            decreases order.len() - p,
        {
            proof {
                assert(places[p as int] == order@[p as int]);
                let at = order@[p as int] as int;
                if at < items.len() {
                    assert(views[at] == items@[at].deep_view());
                }
            }
            p += 1;
        }
        proof {
            if p < order.len() {
                let at = order@[p as int] as int;
                assert(places[p as int] == order@[p as int]);
                assert(views[at] == items@[at].deep_view());
            }
        }
        order.insert(p, k);
        proof {
            assert(order.deep_view() =~= places.insert(p as int, k));
        }
        k += 1;
    }
    order
}

impl Gathered {
    /// Nothing gathered yet.
    pub fn new() -> (r: Gathered)
        ensures
            r.deep_view() == GatheredView::empty(),
            r.deep_view().live(),
    {
        let r = Gathered {
            features: Vec::new(),
            types: NameMap::new(),
            commands: NameMap::new(),
            patches: Vec::new(),
        };
        proof {
            assert(r.features.deep_view() =~= Seq::empty());
            assert(r.patches.deep_view() =~= Seq::empty());
        }
        r
    }

    /// Takes in one item of a `require` block.
    fn require_item(
        &mut self,
        item: &RequireItem,
        handle: FeatureHandle,
        number: Option<u64>,
    ) -> (r:
        Result<(), TransError>)
        requires
            old(self).deep_view().live(),
            handle.live(old(self).features.len() as nat),
        ensures
            match spec_require_item(old(self).deep_view(), item.deep_view(), handle, number) {
                Ok(g) => r is Ok && final(self).deep_view() == g,
                Err(e) => r is Err && r->Err_0.deep_view() == e,
            },
            final(self).deep_view().live(),
            final(self).features.len() == old(self).features.len(),
    {
        match item {
            RequireItem::Type(t) => {
                self.types.push(t.name.clone(), handle);
                Ok(())
            },
            RequireItem::Command(c) => {
                self.commands.push(c.name.clone(), handle);
                Ok(())
            },
            RequireItem::Enum(e) => {
                match patch(e, handle, number)? {
                    None => {},
                    Some(p) => {
                        self.patches.push(p);
                        proof {
                            assert(self.patches.deep_view() =~= old(self).patches.deep_view().push(
                                p.deep_view(),
                            ));
                        }
                    },
                }
                Ok(())
            },
            _ => Ok(()),
        }
    }

    /// Takes in a `require` block.
    fn require(&mut self, r: &Require, handle: FeatureHandle, number: Option<u64>) -> (res: Result<
        (),
        TransError,
    >)
        requires
            old(self).deep_view().live(),
            handle.live(old(self).features.len() as nat),
        ensures
            match spec_require(old(self).deep_view(), r.deep_view(), handle, number) {
                Ok(g) => res is Ok && final(self).deep_view() == g,
                Err(e) => res is Err && res->Err_0.deep_view() == e,
            },
            final(self).deep_view().live(),
            final(self).features.len() == old(self).features.len(),
    {
        if !api_text_ok(&r.api) {
            return Ok(());
        }
        let mut i: usize = 0;
        let ghost items = r.items.deep_view();
        while i < r.items.len()
            invariant
                items == r.items.deep_view(),
                spec_api_text_ok(r.deep_view().api),
                self.deep_view().live(),
                self.features.len() == old(self).features.len(),
                handle.live(self.features.len() as nat),
                spec_require_items(self.deep_view(), items, i as int, handle, number)
                    == spec_require_items(old(self).deep_view(), items, 0, handle, number),
            decreases r.items.len() - i,
        {
            self.require_item(&r.items[i], handle, number)?;
            i += 1;
        }
        Ok(())
    }

    /// Takes in the children of a core version.
    fn feature_items(&mut self, items: &Vec<FeatureItem>, handle: FeatureHandle) -> (res: Result<
        (),
        TransError,
    >)
        requires
            old(self).deep_view().live(),
            handle.live(old(self).features.len() as nat),
        ensures
            match spec_feature_items(old(self).deep_view(), items.deep_view(), 0, handle) {
                Ok(g) => res is Ok && final(self).deep_view() == g,
                Err(e) => res is Err && res->Err_0.deep_view() == e,
            },
            final(self).deep_view().live(),
            final(self).features.len() == old(self).features.len(),
    {
        let mut i: usize = 0;
        let ghost views = items.deep_view();
        while i < items.len()
            invariant
                views == items.deep_view(),
                self.deep_view().live(),
                self.features.len() == old(self).features.len(),
                handle.live(self.features.len() as nat),
                spec_feature_items(self.deep_view(), views, i as int, handle)
                    == spec_feature_items(old(self).deep_view(), views, 0, handle),
            decreases items.len() - i,
        {
            match &items[i] {
                FeatureItem::Require(r) => {
                    self.require(r, handle, None)?;
                },
                _ => {},
            }
            i += 1;
        }
        Ok(())
    }

    /// Takes in the children of an extension.
    fn extension_items(
        &mut self,
        items: &Vec<ExtensionItem>,
        handle: FeatureHandle,
        number: u64,
    ) -> (res:
        Result<(), TransError>)
        requires
            old(self).deep_view().live(),
            handle.live(old(self).features.len() as nat),
        ensures
            match spec_extension_items(
                old(self).deep_view(),
                items.deep_view(),
                0,
                handle,
                number,
            ) {
                Ok(g) => res is Ok && final(self).deep_view() == g,
                Err(e) => res is Err && res->Err_0.deep_view() == e,
            },
            final(self).deep_view().live(),
            final(self).features.len() == old(self).features.len(),
    {
        let mut i: usize = 0;
        let ghost views = items.deep_view();
        while i < items.len()
            invariant
                views == items.deep_view(),
                self.deep_view().live(),
                self.features.len() == old(self).features.len(),
                handle.live(self.features.len() as nat),
                spec_extension_items(self.deep_view(), views, i as int, handle, number)
                    == spec_extension_items(old(self).deep_view(), views, 0, handle, number),
            decreases items.len() - i,
        {
            match &items[i] {
                ExtensionItem::Require(r) => {
                    self.require(r, handle, Some(number))?;
                },
                _ => {},
            }
            i += 1;
        }
        Ok(())
    }

    /// Adds a feature to the table and gives its handle.
    fn add_feature(&mut self, feature: Feature) -> (handle: FeatureHandle)
        requires
            old(self).deep_view().live(),
            old(self).features.len() < usize::MAX,
        ensures
            final(self).deep_view() == (GatheredView {
                features: old(self).deep_view().features.push(feature.deep_view()),
                ..old(self).deep_view()
            }),
            final(self).deep_view().live(),
            handle == FeatureHandle(final(self).features.len()),
            handle.live(final(self).features.len() as nat),
            final(self).features.len() == old(self).features.len() + 1,
    {
        self.features.push(feature);
        proof {
            assert(self.features.deep_view() =~= old(self).features.deep_view().push(
                feature.deep_view(),
            ));
        }
        FeatureHandle(self.features.len())
    }

    /// Takes in an extension.
    fn extension(&mut self, e: &Extension) -> (res: Result<(), TransError>)
        requires
            old(self).deep_view().live(),
        ensures
            match spec_extension(old(self).deep_view(), e.deep_view()) {
                Ok(g) => res is Ok && final(self).deep_view() == g,
                Err(err) => res is Err && res->Err_0.deep_view() == err,
            },
            final(self).deep_view().live(),
    {
        if find(&e.supported_api, "vulkan").is_none() {
            return Ok(());
        }
        if self.features.len() >= MAX_ENTRIES {
            return Err(TransError::BadType);
        }
        let number = match parse_u64(e.number.as_str()) {
            Some(n) => n,
            None => {
                return Err(TransError::BadType);
            },
        };
        let feature = Feature {
            header: FeatureHeader {
                standard_name: e.name.clone(),
                output_name: constant_output_name(e.name.as_str()),
            },
            details: FeatureDetails::Extension(
                crate::repr::Extension { number, platform: e.platform.clone() },
            ),
        };
        let handle = self.add_feature(feature);
        self.extension_items(&e.items, handle, number)
    }

    /// Takes in one item of the registry.
    fn gather_item(&mut self, item: &RegistryItem) -> (res: Result<(), TransError>)
        requires
            old(self).deep_view().live(),
        ensures
            match spec_gather_item(old(self).deep_view(), item.deep_view()) {
                Ok(g) => res is Ok && final(self).deep_view() == g,
                Err(err) => res is Err && res->Err_0.deep_view() == err,
            },
            final(self).deep_view().live(),
    {
        match item {
            RegistryItem::Platforms(p) => {
                let mut i: usize = 0;
                let ghost views = p.items.deep_view();
                while i < p.items.len()
                    invariant
                        views == p.items.deep_view(),
                        item.deep_view() == RegistryItemView::Platforms(p.deep_view()),
                        self.deep_view().live(),
                        self.deep_view() == (GatheredView {
                            features: self.deep_view().features,
                            ..old(self).deep_view()
                        }),
                        spec_platforms(self.deep_view().features, views, i as int)
                            == spec_platforms(old(self).deep_view().features, views, 0),
                    decreases p.items.len() - i,
                {
                    let platform = &p.items[i];
                    let feature = Feature {
                        header: FeatureHeader {
                            standard_name: platform.name.clone(),
                            output_name: platform.name.clone(),
                        },
                        details: FeatureDetails::Platform(
                            crate::repr::Platform { protect: platform.protect.clone() },
                        ),
                    };
                    let ghost before = self.deep_view();
                    self.features.push(feature);
                    proof {
                        assert(self.features.deep_view() =~= before.features.push(
                            feature.deep_view(),
                        ));
                    }
                    i += 1;
                }
                Ok(())
            },
            RegistryItem::Feature(f) => {
                if self.features.len() >= MAX_ENTRIES {
                    return Err(TransError::BadType);
                }
                let feature = Feature {
                    header: FeatureHeader {
                        standard_name: f.name.clone(),
                        output_name: constant_output_name(f.name.as_str()),
                    },
                    details: FeatureDetails::Core(CoreFeature { number: f.number.clone() }),
                };
                let handle = self.add_feature(feature);
                self.feature_items(&f.items, handle)
            },
            RegistryItem::Extensions(e) => {
                let order = order_of(&e.items);
                let mut i: usize = 0;
                let ghost views = e.items.deep_view();
                let ghost places = order.deep_view();
                while i < order.len()
                    invariant
                        views == e.items.deep_view(),
                        places == order.deep_view(),
                        places == spec_order(views, 0, Seq::empty()),
                        item.deep_view() == RegistryItemView::Extensions(e.deep_view()),
                        self.deep_view().live(),
                        spec_extensions(self.deep_view(), views, places, i as int)
                            == spec_extensions(old(self).deep_view(), views, places, 0),
                    decreases order.len() - i,
                {
                    let k = order[i];
                    proof {
                        assert(places[i as int] == k);
                    }
                    if k < e.items.len() {
                        self.extension(&e.items[k])?;
                    }
                    i += 1;
                }
                Ok(())
            },
            _ => Ok(()),
        }
    }

    /// Gathers the features of a registry and what they introduce.
    pub fn gather(registry: &Registry) -> (r: Result<Gathered, TransError>)
        ensures
            is_result(r, spec_gather(registry.deep_view())),
            r is Ok ==> r->Ok_0.deep_view().live(),
    {
        let mut g = Gathered::new();
        let mut i: usize = 0;
        let ghost views = registry.items.deep_view();
        while i < registry.items.len()
            invariant
                views == registry.items.deep_view(),
                g.deep_view().live(),
                spec_gather_items(g.deep_view(), views, i as int) == spec_gather_items(
                    GatheredView::empty(),
                    views,
                    0,
                ),
            decreases registry.items.len() - i,
        {
            g.gather_item(&registry.items[i])?;
            i += 1;
        }
        Ok(g)
    }
}

} // verus!
