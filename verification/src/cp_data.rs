//! The charge point's data: authorizations, charge session references, and the
//! device model of components and variables that its configuration is read from.

use vstd::prelude::*;
use vstd::string::*;
use crate::numeric::{i32_to_decimal, signed_decimal};

verus! {

/// Price information that a central system sends for one id token.
#[derive(Clone, Debug, PartialEq, Eq)]
pub struct SetUserPriceData {
    pub id_token: String,
    pub price_text: String,
}

/// What the charge point reports when a connector is unplugged.
#[derive(Clone, Debug, PartialEq, Eq)]
pub struct ConnectorUnpluggedData {
    pub transaction_id: i32,
    pub timestamp: String,
}

/// An RFID card, by its tag.
#[derive(Clone, Debug, PartialEq, Eq)]
pub struct RFID {
    pub id_tag: String,
}

/// Authorization by the vehicle's own certificate.
#[derive(Clone, Debug, PartialEq, Eq)]
pub struct PlugAndCharge {}

/// How a charging session is authorized.
#[derive(Clone, Debug, PartialEq, Eq)]
pub enum AuthorizationType {
    RFID(RFID),
    PlugAndCharge(PlugAndCharge),
    Remote(RFID),
}

/// One connector of one EVSE.
#[derive(Clone, Copy, Debug, PartialEq, Eq)]
pub struct ChargeSessionReference {
    pub evse_index: u32,
    pub connector_id: u32,
}

/// What a queued message refers to.
#[derive(Clone, Copy, Debug, PartialEq, Eq)]
pub enum MessageReference {
    ChargeSession(ChargeSessionReference),
    EventIndex(usize),
    NoReference,
}

/// The device model: the charge point's components and their variables.
#[derive(Clone, Debug, PartialEq, Eq)]
pub struct GetVariableData {
    pub components: Vec<Components>,
}

/// One component of the device model.
#[derive(Clone, Debug, PartialEq, Eq)]
pub struct Components {
    pub instance: Option<String>,
    pub name: String,
    pub evse: Option<u32>,
    pub connector: Option<u32>,
    pub variables: Vec<Variable>,
}

/// The value of a variable, as the device model file writes it.
#[derive(Clone, Debug, PartialEq, Eq)]
pub enum ValueType {
    String(String),
    Integer(i32),
    Boolean(bool),
}

/// One variable of a component.
#[derive(Clone, Debug, PartialEq, Eq)]
pub struct Variable {
    pub instance: Option<String>,
    pub name: String,
    pub ocpp16_key: Option<String>,
    pub value: Option<String>,
    pub required: bool,
    pub attributes: Attributes,
    pub characteristics: Characteristics,
    pub used: Option<bool>,
    pub default_value: Option<ValueType>,
}

/// Who may change a variable, and its declared type.
#[derive(Clone, Debug, PartialEq, Eq)]
pub struct Attributes {
    pub mutability: String,
    pub type_string: Option<String>,
}

/// The data type and limits of a variable.
#[derive(Clone, Debug, PartialEq, Eq)]
pub struct Characteristics {
    pub data_type: String,
    pub unit: Option<String>,
    pub values_list: Option<String>,
    pub max_limit: Option<u32>,
    pub min_limit: Option<u32>,
}

/// The identity and connection settings that a charge point configuration file holds.
#[derive(Clone, Debug, PartialEq, Eq)]
pub struct CPFileInfo {
    pub username: Option<String>,
    pub password: Option<String>,
    pub vendor: Option<String>,
    pub model: Option<String>,
    pub serial: Option<String>,
    pub protocol: Option<String>,
    pub base_url: Option<String>,
}

/// A component, with its variables as a sequence.
#[verifier::ext_equal]
pub struct ComponentView {
    pub instance: Option<String>,
    pub name: String,
    pub evse: Option<u32>,
    pub connector: Option<u32>,
    pub variables: Seq<Variable>,
}

impl View for Components {
    type V = ComponentView;

    open spec fn view(&self) -> ComponentView {
        ComponentView {
            instance: self.instance,
            name: self.name,
            evse: self.evse,
            connector: self.connector,
            variables: self.variables@,
        }
    }
}

/// The views of a sequence of components.
pub open spec fn component_views(cs: Seq<Components>) -> Seq<ComponentView> {
    cs.map_values(|c: Components| c@)
}

impl View for GetVariableData {
    type V = Seq<ComponentView>;

    open spec fn view(&self) -> Seq<ComponentView> {
        component_views(self.components@)
    }
}

/// The text of a value, as its `Display` writes it.
pub open spec fn value_text(v: ValueType) -> Seq<char> {
    match v {
        ValueType::String(s) => s@,
        ValueType::Integer(i) => signed_decimal(i as int),
        ValueType::Boolean(b) => if b {
            "true"@
        } else {
            "false"@
        },
    }
}

impl ValueType {
    /// The value as text: a string as it is, a number in decimal, a boolean as
    /// `true` or `false`.
    pub fn to_string(&self) -> (r: String)
        ensures
            r@ == value_text(*self),
    {
        match self {
            ValueType::String(s) => s.clone(),
            ValueType::Integer(i) => i32_to_decimal(*i),
            ValueType::Boolean(b) => if *b {
                "true".to_owned()
            } else {
                "false".to_owned()
            },
        }
    }
}

} // verus!
