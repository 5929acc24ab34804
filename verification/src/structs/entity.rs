use vstd::prelude::*;
use vstd::std_specs::convert::FromSpecImpl;

use crate::proto::app_entity_payload::Item;
use crate::proto::{entity_type_of_code, AppEntityInfo, AppEntityPayload, AppEntityType};

verus! {

/// The kinds of smart device.
#[derive(Debug, Clone, Copy, PartialEq, Eq, Structural)]
pub enum RustEntityType {
    Unknown,
    Switch,
    Alarm,
    StorageMonitor,
}

/// An item stack in a storage monitor's container.
#[derive(Debug, Clone, Copy, PartialEq, Eq, Structural)]
pub struct RustEntityItem {
    pub item_id: i32,
    pub quantity: i32,
    pub item_is_blueprint: bool,
}

/// The state of a smart device.
#[derive(Debug, Clone)]
pub struct RustEntityPayload {
    pub value: bool,
    pub items: Vec<RustEntityItem>,
    pub capacity: i32,
    pub has_protection: bool,
    pub protection_expiry: u32,
}

/// A smart device: its kind, and its state if the server sent one.
#[derive(Debug, Clone)]
pub struct RustEntityInfo {
    pub entity_type: RustEntityType,
    pub payload: Option<RustEntityPayload>,
}

/// The record of an item stack: every field kept.
pub open spec fn entity_item_of(item: Item) -> RustEntityItem {
    RustEntityItem {
        item_id: item.item_id,
        quantity: item.quantity,
        item_is_blueprint: item.item_is_blueprint,
    }
}

/// The library's name for a device kind.
pub open spec fn entity_type_of(t: AppEntityType) -> RustEntityType {
    match t {
        AppEntityType::UnknownType => RustEntityType::Unknown,
        AppEntityType::Switch => RustEntityType::Switch,
        AppEntityType::Alarm => RustEntityType::Alarm,
        AppEntityType::StorageMonitor => RustEntityType::StorageMonitor,
    }
}

/// The device kind that a wire code stands for; a code that stands for no
/// kind is read as unknown.
pub open spec fn entity_type_of_wire(code: i32) -> RustEntityType {
    match entity_type_of_code(code) {
        Some(t) => entity_type_of(t),
        None => RustEntityType::Unknown,
    }
}

impl FromSpecImpl<Item> for RustEntityItem {
    open spec fn obeys_from_spec() -> bool {
        true
    }

    open spec fn from_spec(item: Item) -> RustEntityItem {
        entity_item_of(item)
    }
}

impl From<Item> for RustEntityItem {
    /// Keeps the item, its quantity and whether it is a blueprint.
    fn from(item: Item) -> (r: RustEntityItem) {
        RustEntityItem {
            item_id: item.item_id,
            quantity: item.quantity,
            item_is_blueprint: item.item_is_blueprint,
        }
    }
}

impl FromSpecImpl<AppEntityType> for RustEntityType {
    open spec fn obeys_from_spec() -> bool {
        true
    }

    open spec fn from_spec(t: AppEntityType) -> RustEntityType {
        entity_type_of(t)
    }
}

impl From<AppEntityType> for RustEntityType {
    /// Maps each device kind to the kind of the same name.
    fn from(t: AppEntityType) -> (r: RustEntityType) {
        match t {
            AppEntityType::UnknownType => RustEntityType::Unknown,
            AppEntityType::Switch => RustEntityType::Switch,
            AppEntityType::Alarm => RustEntityType::Alarm,
            AppEntityType::StorageMonitor => RustEntityType::StorageMonitor,
        }
    }
}

impl RustEntityPayload {
    /// `self` is `payload` with every scalar field kept and every item
    /// converted in order.
    pub open spec fn converted_from(&self, payload: AppEntityPayload) -> bool {
        &&& self.value == payload.value
        &&& self.capacity == payload.capacity
        &&& self.has_protection == payload.has_protection
        &&& self.protection_expiry == payload.protection_expiry
        &&& self.items@.len() == payload.items@.len()
        &&& forall|i: int|
            0 <= i < payload.items@.len() ==> #[trigger] self.items@[i] == entity_item_of(
                payload.items@[i],
            )
    }
}

/// What `from` gives is stated by `converted_from`.
impl FromSpecImpl<AppEntityPayload> for RustEntityPayload {
    open spec fn obeys_from_spec() -> bool {
        false
    }

    open spec fn from_spec(payload: AppEntityPayload) -> RustEntityPayload {
        choose|r: RustEntityPayload| r.converted_from(payload)
    }
}

impl From<AppEntityPayload> for RustEntityPayload {
    /// Keeps every field of the state and converts its items in order.
    fn from(payload: AppEntityPayload) -> (r: RustEntityPayload)
        ensures
            r.converted_from(payload),
    {
        let mut items: Vec<RustEntityItem> = Vec::new();
        for item in it: payload.items.into_iter()
            invariant
                it.seq() == payload.items@,
                items@.len() == it.index(),
                forall|i: int|
                    0 <= i < it.index() ==> #[trigger] items@[i] == entity_item_of(
                        payload.items@[i],
                    ),
        {
            items.push(RustEntityItem::from(item));
        }
        RustEntityPayload {
            value: payload.value,
            items,
            capacity: payload.capacity,
            has_protection: payload.has_protection,
            protection_expiry: payload.protection_expiry,
        }
    }
}

impl RustEntityInfo {
    /// `self` is `info` with its wire code read as a device kind and its
    /// state, when present, converted.
    pub open spec fn converted_from(&self, info: AppEntityInfo) -> bool {
        &&& self.entity_type == entity_type_of_wire(info.type_code)
        &&& match info.payload {
            Some(p) => self.payload matches Some(q) && q.converted_from(p),
            None => self.payload is None,
        }
    }
}

/// What `from` gives is stated by `converted_from`.
impl FromSpecImpl<AppEntityInfo> for RustEntityInfo {
    open spec fn obeys_from_spec() -> bool {
        false
    }

    open spec fn from_spec(info: AppEntityInfo) -> RustEntityInfo {
        choose|r: RustEntityInfo| r.converted_from(info)
    }
}

impl From<AppEntityInfo> for RustEntityInfo {
    /// Reads the device kind from its wire code, an unrecognised code as
    /// unknown, and converts the state if present.
    fn from(info: AppEntityInfo) -> (r: RustEntityInfo)
        ensures
            r.converted_from(info),
    {
        let app_type = match AppEntityType::from_code(info.type_code) {
            Some(t) => t,
            None => AppEntityType::UnknownType,
        };
        let entity_type = RustEntityType::from(app_type);
        let payload = match info.payload {
            Some(p) => Some(RustEntityPayload::from(p)),
            None => None,
        };
        RustEntityInfo { entity_type, payload }
    }
}

/// A converted item stack keeps its item, quantity and blueprint flag.
pub proof fn lemma_entity_item_keeps_fields(item: Item)
    ensures
        entity_item_of(item).item_id == item.item_id,
        entity_item_of(item).quantity == item.quantity,
        entity_item_of(item).item_is_blueprint == item.item_is_blueprint,
{
}

/// Each device kind keeps its name, and a wire code reads as: 1 switch,
/// 2 alarm, 3 storage monitor, anything else unknown.
pub proof fn lemma_entity_kinds(code: i32)
    ensures
        entity_type_of(AppEntityType::UnknownType) == RustEntityType::Unknown,
        entity_type_of(AppEntityType::Switch) == RustEntityType::Switch,
        entity_type_of(AppEntityType::Alarm) == RustEntityType::Alarm,
        entity_type_of(AppEntityType::StorageMonitor) == RustEntityType::StorageMonitor,
        code == 1 <==> entity_type_of_wire(code) == RustEntityType::Switch,
        code == 2 <==> entity_type_of_wire(code) == RustEntityType::Alarm,
        code == 3 <==> entity_type_of_wire(code) == RustEntityType::StorageMonitor,
        (code < 1 || code > 3) <==> entity_type_of_wire(code) == RustEntityType::Unknown,
{
}

/// A converted device state keeps its value, capacity and protection, and
/// its items position by position.
pub proof fn lemma_entity_payload_in_order(r: RustEntityPayload, payload: AppEntityPayload)
    requires
        r.converted_from(payload),
    ensures
        r.value == payload.value,
        r.capacity == payload.capacity,
        r.has_protection == payload.has_protection,
        r.protection_expiry == payload.protection_expiry,
        r.items@.len() == payload.items@.len(),
        forall|i: int|
            #![trigger r.items@[i]]
            0 <= i < payload.items@.len() ==> {
                &&& r.items@[i].item_id == payload.items@[i].item_id
                &&& r.items@[i].quantity == payload.items@[i].quantity
                &&& r.items@[i].item_is_blueprint == payload.items@[i].item_is_blueprint
            },
{
}

/// A converted device has the kind of its wire code, and a state exactly
/// when the original has one.
pub proof fn lemma_entity_info_kept(r: RustEntityInfo, info: AppEntityInfo)
    requires
        r.converted_from(info),
    ensures
        info.type_code == 0 ==> r.entity_type == RustEntityType::Unknown,
        info.type_code == 1 ==> r.entity_type == RustEntityType::Switch,
        info.type_code == 2 ==> r.entity_type == RustEntityType::Alarm,
        info.type_code == 3 ==> r.entity_type == RustEntityType::StorageMonitor,
        (info.type_code < 0 || info.type_code > 3) ==> r.entity_type == RustEntityType::Unknown,
        r.payload is Some <==> info.payload is Some,
{
}

} // verus!
