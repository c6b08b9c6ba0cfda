//! The service description model: state variables, actions and their
//! arguments, built from a raw document with literals decoded and defaults
//! applied.

use vstd::prelude::*;
use crate::document::{
    RawAction, RawAllowedValueRange, RawArgument, RawDocument, RawStateVariable,
};
use crate::model::{
    bool_of, data_type_of, direction_of, primitive_type_name, Bool, DataType, Direction, Error,
    ParseError,
};
use crate::names::{strip_marker, trim_arg_type_marker};

verus! {

/// An argument of an action.
#[derive(Debug)]
pub struct Argument {
    pub name: String,
    pub direction: Direction,
    pub related_state_variable: String,
}

/// The inclusive bounds and step of a numeric state variable.
#[derive(Debug, Clone, Copy, PartialEq, Eq, Structural)]
pub struct AllowedValueRange {
    pub minimum: i32,
    pub maximum: i32,
    pub step: i32,
}

/// A state variable of the service.
#[derive(Debug)]
pub struct StateVariable {
    pub name: String,
    pub send_events_attribute: Bool,
    pub multicast: Bool,
    pub data_type: DataType,
    pub default_value: Option<String>,
    pub allowed_value_list: Option<Vec<String>>,
    pub allowed_value_range: Option<AllowedValueRange>,
    pub optional: bool,
}

/// The value of a range bound that the document leaves out.
fn one() -> (r: i32)
    ensures
        r == 1,
{
    1
}

/// The outcome of building an argument from its raw element: the direction
/// literal decodes, and the other fields are carried over as they are.
pub open spec fn argument_from(raw: RawArgument, r: Result<Argument, ParseError>) -> bool {
    match direction_of(raw.direction@) {
        Some(d) => match r {
            Ok(a) => a.name == raw.name && a.direction == d && a.related_state_variable
                == raw.related_state_variable,
            Err(_) => false,
        },
        None => match r {
            Ok(_) => false,
            Err(e) => (e matches ParseError::InvalidDirection(t) && t@ == raw.direction@),
        },
    }
}

impl Argument {
    pub fn name(&self) -> (r: &String)
        ensures
            *r == self.name,
    {
        &self.name
    }

    pub fn direction(&self) -> (r: &Direction)
        ensures
            *r == self.direction,
    {
        &self.direction
    }

    /// The related state variable's name, without its argument-type marker.
    pub fn related_state_variable(&self) -> (r: &str)
        ensures
            r@ == strip_marker(self.related_state_variable@),
    {
        trim_arg_type_marker(self.related_state_variable.as_str())
    }

    /// Builds an argument from its raw element.
    pub fn from_raw(raw: RawArgument) -> (r: Result<Argument, ParseError>)
        ensures
            argument_from(raw, r),
    {
        match Direction::from_literal(raw.direction.as_str()) {
            Ok(direction) => Ok(
                Argument {
                    name: raw.name,
                    direction,
                    related_state_variable: raw.related_state_variable,
                },
            ),
            Err(e) => Err(e),
        }
    }
}


/// A range bound as read: the given value, or one when it is left out.
pub open spec fn bound_or_one(b: Option<i32>) -> i32 {
    match b {
        Some(v) => v,
        None => 1,
    }
}

/// A flag as read: its literal decoded, or `default` when it is absent.
pub open spec fn flag_or(f: Option<String>, default: Bool) -> Option<Bool> {
    match f {
        Some(s) => bool_of(s@),
        None => Some(default),
    }
}

/// The outcome of building a state variable from its raw element. The flags
/// are checked first (`sendEvents`, then `multicast`), then the data type;
/// absent flags default to yes for events and no for multicast, absent range
/// bounds to one, and `optional` records whether the marker was present.
pub open spec fn state_variable_from(raw: RawStateVariable, r: Result<StateVariable, ParseError>) -> bool {
    if flag_or(raw.send_events_attribute, Bool::Yes) is None {
        r matches Err(ParseError::InvalidBool(t)) && t@ == raw.send_events_attribute->Some_0@
    } else if flag_or(raw.multicast, Bool::No) is None {
        r matches Err(ParseError::InvalidBool(t)) && t@ == raw.multicast->Some_0@
    } else if data_type_of(raw.data_type@) is None {
        r matches Err(ParseError::InvalidDataType(t)) && t@ == raw.data_type@
    } else {
        r matches Ok(v) && v.name == raw.name
            && Some(v.send_events_attribute) == flag_or(raw.send_events_attribute, Bool::Yes)
            && Some(v.multicast) == flag_or(raw.multicast, Bool::No)
            && Some(v.data_type) == data_type_of(raw.data_type@)
            && v.default_value == raw.default_value
            && v.allowed_value_list == raw.allowed_value_list
            && v.allowed_value_range == match raw.allowed_value_range {
                Some(b) => Some(AllowedValueRange::spec_from_raw(b)),
                None => None,
            }
            && v.optional == raw.optional is Some
    }
}

/// The target type of a state variable: its own name, without the
/// argument-type marker, when it declares a list of allowed values;
/// otherwise the target type of its data type, if that has one.
pub open spec fn mapped_type(v: StateVariable) -> Option<Seq<char>> {
    if v.allowed_value_list is Some {
        Some(strip_marker(v.name@))
    } else {
        primitive_type_name(v.data_type)
    }
}

impl AllowedValueRange {
    pub open spec fn spec_from_raw(raw: RawAllowedValueRange) -> AllowedValueRange {
        AllowedValueRange {
            minimum: bound_or_one(raw.minimum),
            maximum: bound_or_one(raw.maximum),
            step: bound_or_one(raw.step),
        }
    }

    /// Builds a range from its raw element; a bound left out is one.
    pub fn from_raw(raw: RawAllowedValueRange) -> (r: AllowedValueRange)
        ensures
            r == AllowedValueRange::spec_from_raw(raw),
    {
        AllowedValueRange {
            minimum: match raw.minimum {
                Some(v) => v,
                None => one(),
            },
            maximum: match raw.maximum {
                Some(v) => v,
                None => one(),
            },
            step: match raw.step {
                Some(v) => v,
                None => one(),
            },
        }
    }

    /// Inclusive lower bound.
    pub fn minimum(&self) -> (r: i32)
        ensures
            r == self.minimum,
    {
        self.minimum
    }

    /// Inclusive upper bound.
    pub fn maximum(&self) -> (r: i32)
        ensures
            r == self.maximum,
    {
        self.maximum
    }

    pub fn step(&self) -> (r: i32)
        ensures
            r == self.step,
    {
        self.step
    }
}

/// Decodes an optional flag, falling back to `default` when it is absent.
fn flag_from(f: &Option<String>, default: Bool) -> (r: Result<Bool, ParseError>)
    ensures
        r matches Ok(b) ==> flag_or(*f, default) == Some(b),
        r matches Err(e) ==> flag_or(*f, default) is None && (e matches ParseError::InvalidBool(t)
            && t@ == f->Some_0@),
{
    match f {
        Some(s) => Bool::from_literal(s.as_str()),
        None => Ok(default),
    }
}

impl StateVariable {
    /// Builds a state variable from its raw element.
    pub fn from_raw(raw: RawStateVariable) -> (r: Result<StateVariable, ParseError>)
        ensures
            state_variable_from(raw, r),
            r is Err <==> state_variable_fails(raw),
    {
        let send_events_attribute = match flag_from(&raw.send_events_attribute, Bool::yes()) {
            Ok(b) => b,
            Err(e) => {
                return Err(e);
            },
        };
        let multicast = match flag_from(&raw.multicast, Bool::no()) {
            Ok(b) => b,
            Err(e) => {
                return Err(e);
            },
        };
        let data_type = match DataType::from_literal(raw.data_type.as_str()) {
            Ok(d) => d,
            Err(e) => {
                return Err(e);
            },
        };
        let allowed_value_range = match raw.allowed_value_range {
            Some(b) => Some(AllowedValueRange::from_raw(b)),
            None => None,
        };
        Ok(
            StateVariable {
                name: raw.name,
                send_events_attribute,
                multicast,
                data_type,
                default_value: raw.default_value,
                allowed_value_list: raw.allowed_value_list,
                allowed_value_range,
                optional: raw.optional.is_some(),
            },
        )
    }

    /// The name, without its argument-type marker.
    pub fn name(&self) -> (r: &str)
        ensures
            r@ == strip_marker(self.name@),
    {
        trim_arg_type_marker(self.name.as_str())
    }

    /// Whether event messages are generated when the value changes.
    pub fn send_events_attribute(&self) -> (r: &Bool)
        ensures
            *r == self.send_events_attribute,
    {
        &self.send_events_attribute
    }

    /// Whether event messages are delivered by multicast.
    pub fn multicast(&self) -> (r: &Bool)
        ensures
            *r == self.multicast,
    {
        &self.multicast
    }

    pub fn data_type(&self) -> (r: &DataType)
        ensures
            *r == self.data_type,
    {
        &self.data_type
    }

    pub fn default_value(&self) -> (r: &Option<String>)
        ensures
            *r == self.default_value,
    {
        &self.default_value
    }

    pub fn allowed_value_range(&self) -> (r: &Option<AllowedValueRange>)
        ensures
            *r == self.allowed_value_range,
    {
        &self.allowed_value_range
    }

    /// Whether the optional marker was present in the document.
    pub fn optional(&self) -> (r: bool)
        ensures
            r == self.optional,
    {
        self.optional
    }

    /// The allowed values, when the variable declares a list of them.
    pub fn allowed_values(&self) -> (r: Option<&Vec<String>>)
        ensures
            r matches Some(l) ==> self.allowed_value_list == Some(*l),
            r is None <==> self.allowed_value_list is None,
    {
        match &self.allowed_value_list {
            Some(l) => Some(l),
            None => None,
        }
    }

    /// The target type name of this variable (see `mapped_type`); a data type
    /// without a target type is an error.
    fn data_type_str(&self) -> (r: Result<&str, Error>)
        ensures
            r matches Ok(n) ==> mapped_type(*self) == Some(n@),
            r matches Err(e) ==> mapped_type(*self) is None && e == Error::UnsupportedTypeError(
                self.data_type,
            ),
    {
        if self.allowed_values().is_some() {
            Ok(self.name())
        } else {
            self.data_type.target_type()
        }
    }

    /// The target type of this variable where it backs an input argument.
    pub fn data_type_str_input(&self) -> (r: Result<&str, Error>)
        ensures
            r matches Ok(n) ==> mapped_type(*self) == Some(n@),
            r matches Err(e) ==> mapped_type(*self) is None && e == Error::UnsupportedTypeError(
                self.data_type,
            ),
    {
        self.data_type_str()
    }

    /// The target type of this variable where it backs an output argument.
    pub fn data_type_str_output(&self) -> (r: Result<&str, Error>)
        ensures
            r matches Ok(n) ==> mapped_type(*self) == Some(n@),
            r matches Err(e) ==> mapped_type(*self) is None && e == Error::UnsupportedTypeError(
                self.data_type,
            ),
    {
        self.data_type_str()
    }
}


/// An action of the service.
#[derive(Debug)]
pub struct Action {
    pub name: String,
    pub argument_list: Vec<Argument>,
}

/// The service description: its state variables and actions in document
/// order, under the service type `urn` that the caller registered it with.
#[derive(Debug)]
pub struct SCPD {
    pub urn: String,
    pub service_state_table: Vec<StateVariable>,
    pub action_list: Vec<Action>,
}

pub open spec fn is_input(a: Argument) -> bool {
    a.direction is In
}

pub open spec fn is_output(a: Argument) -> bool {
    a.direction is Out
}

/// Forgets that the items of a sequence are borrowed.
pub open spec fn derefs(s: Seq<&Argument>) -> Seq<Argument> {
    s.map_values(|a: &Argument| *a)
}

/// Whether each raw argument builds into the argument at its position.
pub open spec fn arguments_from(raws: Seq<RawArgument>, args: Seq<Argument>) -> bool {
    &&& args.len() == raws.len()
    &&& forall|i: int| 0 <= i < raws.len() ==> #[trigger] argument_from(raws[i], Ok(args[i]))
}

/// Whether a raw argument fails to build.
pub open spec fn argument_fails(raw: RawArgument) -> bool {
    direction_of(raw.direction@) is None
}

/// Whether `a` is the action that `raw` builds into: same name, and each
/// raw argument built in order.
pub open spec fn action_built(raw: RawAction, a: Action) -> bool {
    a.name == raw.name && arguments_from(raw.arguments(), a.argument_list@)
}

/// Whether some argument of a raw action fails to build.
pub open spec fn action_fails(raw: RawAction) -> bool {
    exists|i: int| 0 <= i < raw.arguments().len() && argument_fails(#[trigger] raw.arguments()[i])
}

/// Whether `e` is the error of the first argument of `raw` that fails.
pub open spec fn action_error(raw: RawAction, e: ParseError) -> bool {
    exists|i: int|
        0 <= i < raw.arguments().len() && argument_from(#[trigger] raw.arguments()[i], Err(e))
            && forall|j: int| 0 <= j < i ==> !argument_fails(#[trigger] raw.arguments()[j])
}

/// Whether a raw state variable fails to build.
pub open spec fn state_variable_fails(raw: RawStateVariable) -> bool {
    flag_or(raw.send_events_attribute, Bool::Yes) is None || flag_or(raw.multicast, Bool::No) is None
        || data_type_of(raw.data_type@) is None
}

/// Whether each raw state variable builds into the one at its position.
pub open spec fn state_variables_from(raws: Seq<RawStateVariable>, vs: Seq<StateVariable>) -> bool {
    &&& vs.len() == raws.len()
    &&& forall|i: int| 0 <= i < raws.len() ==> #[trigger] state_variable_from(raws[i], Ok(vs[i]))
}

/// Whether each raw action builds into the one at its position.
pub open spec fn actions_from(raws: Seq<RawAction>, acts: Seq<Action>) -> bool {
    &&& acts.len() == raws.len()
    &&& forall|i: int| 0 <= i < raws.len() ==> #[trigger] action_built(raws[i], acts[i])
}

/// Whether a raw document fails to build: some state variable or some
/// action fails.
pub open spec fn document_fails(raw: RawDocument) -> bool {
    (exists|i: int|
        0 <= i < raw.service_state_table@.len() && state_variable_fails(
            #[trigger] raw.service_state_table@[i],
        )) || (exists|i: int|
        0 <= i < raw.action_list@.len() && action_fails(#[trigger] raw.action_list@[i]))
}

/// Whether `e` is the error of a raw document: that of its first state
/// variable that fails or, when all of them build, that of its first action
/// that fails.
pub open spec fn document_error(raw: RawDocument, e: ParseError) -> bool {
    let vs = raw.service_state_table@;
    let acts = raw.action_list@;
    (exists|i: int|
        0 <= i < vs.len() && state_variable_from(#[trigger] vs[i], Err(e)) && forall|j: int|
            0 <= j < i ==> !state_variable_fails(#[trigger] vs[j])) || ((forall|i: int|
        0 <= i < vs.len() ==> !state_variable_fails(#[trigger] vs[i])) && exists|i: int|
        0 <= i < acts.len() && action_error(#[trigger] acts[i], e) && forall|j: int|
            0 <= j < i ==> !action_fails(#[trigger] acts[j]))
}

/// Whether `d` is the description that `raw` builds into, under `urn`.
pub open spec fn document_built(raw: RawDocument, urn: Seq<char>, d: SCPD) -> bool {
    &&& d.urn@ == urn
    &&& state_variables_from(raw.service_state_table@, d.service_state_table@)
    &&& actions_from(raw.action_list@, d.action_list@)
}

impl Action {
    /// Builds an action from its raw element; an absent argument list is an
    /// empty one.
    pub fn from_raw(raw: RawAction) -> (r: Result<Action, ParseError>)
        ensures
            r matches Ok(a) ==> action_built(raw, a),
            r is Err <==> action_fails(raw),
            r matches Err(e) ==> action_error(raw, e),
    {
        let ghost all = raw.arguments();
        let mut rest = match raw.argument_list {
            Some(v) => v,
            None => Vec::new(),
        };
        let mut built: Vec<Argument> = Vec::new();
        let ghost mut k: int = 0;
        while rest.len() > 0
            invariant
                0 <= k <= all.len(),
                all == raw.arguments(),
                rest@ == all.subrange(k, all.len() as int),
                arguments_from(all.subrange(0, k), built@),
                forall|j: int| 0 <= j < k ==> !argument_fails(#[trigger] all[j]),
            decreases rest.len(),
        {
            let x = rest.remove(0);
            proof {
                assert(x == all[k]);
            }
            match Argument::from_raw(x) {
                Ok(a) => {
                    built.push(a);
                    proof {
                        assert forall|i: int| 0 <= i < k + 1 implies #[trigger] argument_from(
                            all.subrange(0, k + 1)[i],
                            Ok(built@[i]),
                        ) by {
                            if i < k {
                                assert(all.subrange(0, k)[i] == all.subrange(0, k + 1)[i]);
                            }
                        }
                        k = k + 1;
                        assert(rest@ =~= all.subrange(k, all.len() as int));
                    }
                },
                Err(e) => {
                    proof {
                        assert(argument_fails(raw.arguments()[k]));
                        assert(argument_from(raw.arguments()[k], Err(e)));
                        assert(action_error(raw, e));
                    }
                    return Err(e);
                },
            }
        }
        proof {
            assert(all.subrange(0, k) =~= all);
        }
        Ok(Action { name: raw.name, argument_list: built })
    }

    pub fn name(&self) -> (r: &String)
        ensures
            *r == self.name,
    {
        &self.name
    }

    pub fn arguments(&self) -> (r: &Vec<Argument>)
        ensures
            *r == self.argument_list,
    {
        &self.argument_list
    }

    /// The input arguments, in declaration order, borrowed from the action.
    pub fn input_arguments(&self) -> (r: Vec<&Argument>)
        ensures
            derefs(r@) == self.argument_list@.filter(|a: Argument| is_input(a)),
    {
        let mut r: Vec<&Argument> = Vec::new();
        let mut i: usize = 0;
        while i < self.argument_list.len()
            invariant
                i <= self.argument_list@.len(),
                derefs(r@) == self.argument_list@.subrange(0, i as int).filter(
                    |a: Argument| is_input(a),
                ),
            decreases self.argument_list@.len() - i,
        {
            let a = &self.argument_list[i];
            if a.direction.is_in() {
                r.push(a);
            }
            proof {
                let s = self.argument_list@.subrange(0, i + 1);
                assert(s.drop_last() =~= self.argument_list@.subrange(0, i as int));
                reveal(Seq::filter);
                assert(derefs(r@) =~= s.filter(|a: Argument| is_input(a)));
            }
            i = i + 1;
        }
        proof {
            assert(self.argument_list@.subrange(0, i as int) =~= self.argument_list@);
        }
        r
    }

    /// The output arguments, in declaration order, borrowed from the action.
    pub fn output_arguments(&self) -> (r: Vec<&Argument>)
        ensures
            derefs(r@) == self.argument_list@.filter(|a: Argument| is_output(a)),
    {
        let mut r: Vec<&Argument> = Vec::new();
        let mut i: usize = 0;
        while i < self.argument_list.len()
            invariant
                i <= self.argument_list@.len(),
                derefs(r@) == self.argument_list@.subrange(0, i as int).filter(
                    |a: Argument| is_output(a),
                ),
            decreases self.argument_list@.len() - i,
        {
            let a = &self.argument_list[i];
            if a.direction.is_out() {
                r.push(a);
            }
            proof {
                let s = self.argument_list@.subrange(0, i + 1);
                assert(s.drop_last() =~= self.argument_list@.subrange(0, i as int));
                reveal(Seq::filter);
                assert(derefs(r@) =~= s.filter(|a: Argument| is_output(a)));
            }
            i = i + 1;
        }
        proof {
            assert(self.argument_list@.subrange(0, i as int) =~= self.argument_list@);
        }
        r
    }

    /// Gives up the action for its name and arguments.
    pub fn destructure(self) -> (r: (String, Vec<Argument>))
        ensures
            r.0 == self.name,
            r.1 == self.argument_list,
    {
        (self.name, self.argument_list)
    }
}


impl SCPD {
    /// Builds the description of a raw document, with an empty `urn`. The
    /// state variables are built first, then the actions; the first that
    /// fails makes the whole document fail.
    pub fn from_raw(raw: RawDocument) -> (r: Result<SCPD, ParseError>)
        ensures
            r matches Ok(d) ==> document_built(raw, Seq::empty(), d),
            r is Err <==> document_fails(raw),
            r matches Err(e) ==> document_error(raw, e),
    {
        let ghost raw_vs = raw.service_state_table@;
        let ghost raw_acts = raw.action_list@;
        let mut rest_vs = raw.service_state_table;
        let mut vs: Vec<StateVariable> = Vec::new();
        let ghost mut k: int = 0;
        while rest_vs.len() > 0
            invariant
                0 <= k <= raw_vs.len(),
                raw_vs == raw.service_state_table@,
                rest_vs@ == raw_vs.subrange(k, raw_vs.len() as int),
                state_variables_from(raw_vs.subrange(0, k), vs@),
                forall|j: int| 0 <= j < k ==> !state_variable_fails(#[trigger] raw_vs[j]),
            decreases rest_vs.len(),
        {
            let x = rest_vs.remove(0);
            proof {
                assert(x == raw_vs[k]);
            }
            match StateVariable::from_raw(x) {
                Ok(v) => {
                    vs.push(v);
                    proof {
                        assert forall|i: int| 0 <= i < k + 1 implies #[trigger] state_variable_from(
                            raw_vs.subrange(0, k + 1)[i],
                            Ok(vs@[i]),
                        ) by {
                            if i < k {
                                assert(raw_vs.subrange(0, k)[i] == raw_vs.subrange(0, k + 1)[i]);
                            }
                        }
                        k = k + 1;
                        assert(rest_vs@ =~= raw_vs.subrange(k, raw_vs.len() as int));
                    }
                },
                Err(e) => {
                    proof {
                        assert(state_variable_fails(raw.service_state_table@[k]));
                        assert(state_variable_from(raw.service_state_table@[k], Err(e)));
                        assert(document_error(raw, e));
                    }
                    return Err(e);
                },
            }
        }
        proof {
            assert(raw_vs.subrange(0, k) =~= raw_vs);
        }
        let mut rest_acts = raw.action_list;
        let mut acts: Vec<Action> = Vec::new();
        let ghost mut n: int = 0;
        while rest_acts.len() > 0
            invariant
                0 <= n <= raw_acts.len(),
                raw_acts == raw.action_list@,
                raw_vs == raw.service_state_table@,
                forall|j: int| 0 <= j < raw_vs.len() ==> !state_variable_fails(#[trigger] raw_vs[j]),
                rest_acts@ == raw_acts.subrange(n, raw_acts.len() as int),
                actions_from(raw_acts.subrange(0, n), acts@),
                forall|j: int| 0 <= j < n ==> !action_fails(#[trigger] raw_acts[j]),
            decreases rest_acts.len(),
        {
            let x = rest_acts.remove(0);
            proof {
                assert(x == raw_acts[n]);
            }
            match Action::from_raw(x) {
                Ok(a) => {
                    acts.push(a);
                    proof {
                        assert forall|i: int| 0 <= i < n + 1 implies #[trigger] action_built(
                            raw_acts.subrange(0, n + 1)[i],
                            acts@[i],
                        ) by {
                            if i < n {
                                assert(raw_acts.subrange(0, n)[i] == raw_acts.subrange(0, n + 1)[i]);
                            }
                        }
                        n = n + 1;
                        assert(rest_acts@ =~= raw_acts.subrange(n, raw_acts.len() as int));
                    }
                },
                Err(e) => {
                    proof {
                        assert(action_fails(raw.action_list@[n]));
                        assert(action_error(raw.action_list@[n], e));
                        assert(document_error(raw, e));
                    }
                    return Err(e);
                },
            }
        }
        proof {
            assert(raw_acts.subrange(0, n) =~= raw_acts);
        }
        Ok(SCPD { urn: String::new(), service_state_table: vs, action_list: acts })
    }

    /// Builds the complete description of a raw document registered under
    /// the service type `urn`.
    pub fn from_document(raw: RawDocument, urn: String) -> (r: Result<SCPD, Error>)
        ensures
            r matches Ok(d) ==> document_built(raw, urn@, d),
            r is Err <==> document_fails(raw),
            r matches Err(e) ==> (e matches Error::ParseError(p) && document_error(raw, p)),
    {
        match SCPD::from_raw(raw) {
            Ok(d) => {
                let mut d = d;
                d.set_urn(urn);
                Ok(d)
            },
            Err(e) => Err(Error::ParseError(e)),
        }
    }

    /// The service type this description is registered under.
    pub fn urn(&self) -> (r: &String)
        ensures
            *r == self.urn,
    {
        &self.urn
    }

    /// Registers the description under the service type `urn`.
    pub fn set_urn(&mut self, urn: String)
        ensures
            final(self).urn == urn,
            final(self).service_state_table == old(self).service_state_table,
            final(self).action_list == old(self).action_list,
    {
        self.urn = urn;
    }

    pub fn state_variables(&self) -> (r: &Vec<StateVariable>)
        ensures
            *r == self.service_state_table,
    {
        &self.service_state_table
    }

    pub fn actions(&self) -> (r: &Vec<Action>)
        ensures
            *r == self.action_list,
    {
        &self.action_list
    }

    /// Gives up the description for its urn, state variables and actions.
    pub fn destructure(self) -> (r: (String, Vec<StateVariable>, Vec<Action>))
        ensures
            r.0 == self.urn,
            r.1 == self.service_state_table,
            r.2 == self.action_list,
    {
        (self.urn, self.service_state_table, self.action_list)
    }
}

} // verus!
