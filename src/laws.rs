//! Facts about the model that relate several of its functions.

use vstd::prelude::*;
use crate::document::{RawDocument, RawStateVariable, RawAction};
use crate::model::{direction_of, is_supported, primitive_type_name, Bool};
use crate::scpd::{
    action_fails, argument_fails, document_built, document_fails, is_input, is_output,
    mapped_type, state_variable_from, Action, Argument, StateVariable, SCPD,
};
use crate::names::strip_marker;

verus! {

broadcast use vstd::seq_lib::group_to_multiset_ensures;

/// Building a document and taking the description apart hands back its state
/// variables and actions in document order: the names, position by position,
/// are those of the document.
pub proof fn lemma_build_keeps_document_order(raw: RawDocument, urn: Seq<char>, d: SCPD)
    requires
        document_built(raw, urn, d),
    ensures
        d.service_state_table@.map_values(|v: StateVariable| v.name)
            == raw.service_state_table@.map_values(|v: RawStateVariable| v.name),
        d.action_list@.map_values(|a: Action| a.name) == raw.action_list@.map_values(
            |a: RawAction| a.name,
        ),
        d.urn@ == urn,
{
    assert(d.service_state_table@.map_values(|v: StateVariable| v.name)
        =~= raw.service_state_table@.map_values(|v: RawStateVariable| v.name)) by {
        assert forall|i: int| 0 <= i < raw.service_state_table@.len() implies
            d.service_state_table@[i].name == raw.service_state_table@[i].name by {
            assert(state_variable_from(raw.service_state_table@[i], Ok(d.service_state_table@[i])));
        }
    }
    assert(d.action_list@.map_values(|a: Action| a.name) =~= raw.action_list@.map_values(
        |a: RawAction| a.name,
    )) by {
        assert forall|i: int| 0 <= i < raw.action_list@.len() implies d.action_list@[i].name
            == raw.action_list@[i].name by {
            assert(crate::scpd::action_built(raw.action_list@[i], d.action_list@[i]));
        }
    }
}

/// A state variable whose document gives no `sendEvents` flag sends events,
/// and one that gives no `multicast` flag is not multicast.
pub proof fn lemma_flag_defaults(raw: RawStateVariable, v: StateVariable)
    requires
        state_variable_from(raw, Ok(v)),
    ensures
        raw.send_events_attribute is None ==> v.send_events_attribute == Bool::Yes,
        raw.multicast is None ==> v.multicast == Bool::No,
{
}

/// A state variable is optional exactly when its document holds the marker
/// element, whatever the element holds.
pub proof fn lemma_optional_is_presence(raw: RawStateVariable, v: StateVariable)
    requires
        state_variable_from(raw, Ok(v)),
    ensures
        v.optional == (raw.optional is Some),
{
}

/// The input and the output arguments of an action split its arguments:
/// each argument is one or the other and never both, and together the two
/// hold each argument exactly as often as the action does.
pub proof fn lemma_arguments_partition(args: Seq<Argument>)
    ensures
        forall|i: int| 0 <= i < args.len() ==> (is_input(#[trigger] args[i]) != is_output(args[i])),
        args.filter(|a: Argument| is_input(a)).len() + args.filter(|a: Argument| is_output(a)).len()
            == args.len(),
        args.filter(|a: Argument| is_input(a)).to_multiset().add(
            args.filter(|a: Argument| is_output(a)).to_multiset(),
        ) == args.to_multiset(),
    decreases args.len(),
{
    if args.len() > 0 {
        let init = args.drop_last();
        lemma_arguments_partition(init);
        reveal(Seq::filter);
        assert(init.push(args.last()) =~= args);
        assert(args.to_multiset() == init.to_multiset().insert(args.last()));
    } else {
        reveal(Seq::filter);
    }
}

/// A state variable that declares a list of allowed values maps to its own
/// name without the argument-type marker, whatever its data type.
pub proof fn lemma_enumeration_maps_to_name(v: StateVariable)
    requires
        v.allowed_value_list is Some,
    ensures
        mapped_type(v) == Some(strip_marker(v.name@)),
{
}

/// Without a list of allowed values, the target type depends on the data
/// type alone: it exists exactly for the supported tags, and two variables
/// with the same tag map to the same type.
pub proof fn lemma_primitive_mapping_is_stable(a: StateVariable, b: StateVariable)
    requires
        a.allowed_value_list is None,
        b.allowed_value_list is None,
        a.data_type == b.data_type,
    ensures
        mapped_type(a) == mapped_type(b),
        mapped_type(a) == primitive_type_name(a.data_type),
        mapped_type(a) is Some <==> is_supported(a.data_type),
{
}

/// A document in which some argument's direction is neither `in` nor `out`
/// fails as a whole.
pub proof fn lemma_bad_direction_fails_document(raw: RawDocument, i: int, j: int)
    requires
        0 <= i < raw.action_list@.len(),
        0 <= j < raw.action_list@[i].arguments().len(),
        direction_of(raw.action_list@[i].arguments()[j].direction@) is None,
    ensures
        document_fails(raw),
{
    assert(argument_fails(raw.action_list@[i].arguments()[j]));
    assert(action_fails(raw.action_list@[i]));
}

} // verus!
