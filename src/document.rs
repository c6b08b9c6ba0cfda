//! An SCPD document as the XML deserializer delivers it: element texts as
//! strings, optional elements as `Option`, before any literal is decoded or
//! any default applied.

use vstd::prelude::*;

verus! {

/// An `<argument>` element.
#[derive(Debug)]
pub struct RawArgument {
    pub name: String,
    /// The `<direction>` text.
    pub direction: String,
    /// The `<relatedStateVariable>` text.
    pub related_state_variable: String,
}

/// An `<action>` element.
#[derive(Debug)]
pub struct RawAction {
    pub name: String,
    /// The `<argumentList>` children; `None` when the element is absent.
    pub argument_list: Option<Vec<RawArgument>>,
}

/// An `<allowedValueRange>` element.
#[derive(Debug)]
pub struct RawAllowedValueRange {
    pub minimum: Option<i32>,
    pub maximum: Option<i32>,
    pub step: Option<i32>,
}

/// A `<stateVariable>` element.
#[derive(Debug)]
pub struct RawStateVariable {
    pub name: String,
    /// The `sendEvents` flag, when given.
    pub send_events_attribute: Option<String>,
    /// The `multicast` flag, when given.
    pub multicast: Option<String>,
    /// The `<dataType>` tag.
    pub data_type: String,
    pub default_value: Option<String>,
    /// The `<allowedValueList>` entries; `None` when the element is absent.
    pub allowed_value_list: Option<Vec<String>>,
    pub allowed_value_range: Option<RawAllowedValueRange>,
    /// `Some` exactly when the `<optional>` marker element is present.
    pub optional: Option<()>,
}

/// An `<scpd>` document.
#[derive(Debug)]
pub struct RawDocument {
    /// The `<serviceStateTable>` children, in document order.
    pub service_state_table: Vec<RawStateVariable>,
    /// The `<actionList>` children, in document order.
    pub action_list: Vec<RawAction>,
}

impl RawAction {
    /// The declared arguments; an absent list is an empty one.
    pub open spec fn arguments(self) -> Seq<RawArgument> {
        match self.argument_list {
            Some(v) => v@,
            None => Seq::empty(),
        }
    }
}

} // verus!
