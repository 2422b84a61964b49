//! Reading and changing the device model: the OCPP 1.6 configuration keys of its
//! variables, which variables are kept, and the values that keys look up.

use vstd::prelude::*;
use vstd::string::*;
use crate::cp_data::{component_views, value_text, ComponentView, Components, GetVariableData, ValueType, Variable};
use crate::numeric::{append_decimal, decimal, parse_u64, parsed_u64};
use crate::text::str_eq;

verus! {

/// Filtering a sequence extended by one element.
pub proof fn lemma_filter_push<A>(s: Seq<A>, p: spec_fn(A) -> bool, e: A)
    ensures
        s.push(e).filter(p) == (if p(e) {
            s.filter(p).push(e)
        } else {
            s.filter(p)
        }),
{
    reveal(Seq::filter);
    assert(s.push(e).drop_last() =~= s);
}

/// The text that a component puts before its variables' names to make their
/// OCPP 1.6 keys: its name, then its EVSE number, then its instance.
pub open spec fn key_prefix(c: ComponentView) -> Seq<char> {
    c.name@ + (match c.evse {
        Some(e) => decimal(e as nat),
        None => Seq::empty(),
    }) + (match c.instance {
        Some(i) => i@,
        None => Seq::empty(),
    })
}

/// `b` is `a` with at most its OCPP 1.6 key changed.
pub open spec fn same_but_key(a: Variable, b: Variable) -> bool {
    &&& b.instance == a.instance
    &&& b.name == a.name
    &&& b.value == a.value
    &&& b.required == a.required
    &&& b.attributes == a.attributes
    &&& b.characteristics == a.characteristics
    &&& b.used == a.used
    &&& b.default_value == a.default_value
}

/// `b` is variable `a` of component `c` after keys are assigned: a key it had is
/// kept, and one it lacked becomes the component's prefix followed by its name.
pub open spec fn key_assigned(c: ComponentView, a: Variable, b: Variable) -> bool {
    &&& same_but_key(a, b)
    &&& match a.ocpp16_key {
        Some(k) => b.ocpp16_key == Some(k),
        None => b.ocpp16_key matches Some(k) && k@ == key_prefix(c) + a.name@,
    }
}

/// `d` is component `c` after keys are assigned to its variables.
pub open spec fn component_keys_assigned(c: ComponentView, d: ComponentView) -> bool {
    &&& d.instance == c.instance
    &&& d.name == c.name
    &&& d.evse == c.evse
    &&& d.connector == c.connector
    &&& d.variables.len() == c.variables.len()
    &&& forall|j: int|
        0 <= j < c.variables.len() ==> key_assigned(c, c.variables[j], #[trigger] d.variables[j])
}

/// After keys are assigned, every variable of the component has one.
pub proof fn lemma_assigned_variables_keyed(c: ComponentView, d: ComponentView)
    requires
        component_keys_assigned(c, d),
    ensures
        forall|j: int| 0 <= j < d.variables.len() ==> #[trigger] has_ocpp16_key(d.variables[j]),
{
    assert forall|j: int| 0 <= j < d.variables.len() implies #[trigger] has_ocpp16_key(d.variables[j]) by {
        assert(key_assigned(c, c.variables[j], d.variables[j]));
    }
}

/// Assigning keys a second time changes nothing: a component whose variables all
/// have keys keeps them.
pub proof fn lemma_assign_keys_idempotent(c: ComponentView, d: ComponentView, e: ComponentView)
    requires
        component_keys_assigned(c, d),
        component_keys_assigned(d, e),
    ensures
        e == d,
{
    assert forall|j: int| 0 <= j < d.variables.len() implies e.variables[j] == d.variables[j] by {
        assert(key_assigned(c, c.variables[j], d.variables[j]));
        assert(key_assigned(d, d.variables[j], e.variables[j]));
    }
    assert(e.variables =~= d.variables);
    assert(e =~= d);
}

/// Assigning keys to a whole device model a second time changes nothing.
pub proof fn lemma_assign_model_keys_idempotent(
    before: Seq<ComponentView>,
    once: Seq<ComponentView>,
    twice: Seq<ComponentView>,
)
    requires
        once.len() == before.len(),
        twice.len() == once.len(),
        forall|i: int| 0 <= i < before.len() ==> component_keys_assigned(before[i], #[trigger] once[i]),
        forall|i: int| 0 <= i < once.len() ==> component_keys_assigned(once[i], #[trigger] twice[i]),
    ensures
        twice == once,
{
    assert forall|i: int| 0 <= i < once.len() implies twice[i] == once[i] by {
        lemma_assign_keys_idempotent(before[i], once[i], twice[i]);
    }
    assert(twice =~= once);
}

/// The text that a component puts before its variables' names to make their keys.
pub fn component_key_prefix(c: &Components) -> (r: String)
    ensures
        r@ == key_prefix(c@),
{
    let mut out = c.name.clone();
    match c.evse {
        Some(e) => append_decimal(e as u64, &mut out),
        None => {},
    }
    match &c.instance {
        Some(i) => out.append(i.as_str()),
        None => {},
    }
    proof {
        assert(out@ =~= key_prefix(c@));
    }
    out
}

/// Gives every variable that has no OCPP 1.6 key one made of its component's prefix
/// and its own name; keys already present are kept.
pub fn assign_ocpp16_keys(data: &mut GetVariableData)
    ensures
        final(data)@.len() == old(data)@.len(),
        forall|i: int|
            0 <= i < old(data)@.len() ==> component_keys_assigned(
                old(data)@[i],
                #[trigger] final(data)@[i],
            ),
{
    let ghost orig = data.components@;
    let mut i: usize = 0;
    while i < data.components.len()
        invariant
            data.components@.len() == orig.len(),
            0 <= i <= orig.len(),
            forall|k: int| 0 <= k < i ==> component_keys_assigned(orig[k]@, #[trigger] data.components@[k]@),
            forall|k: int| i <= k < orig.len() ==> #[trigger] data.components@[k] == orig[k],
        decreases orig.len() - i,
    {
        let mut comp = data.components.remove(i);
        let ghost c0 = comp@;
        assert(comp == orig[i as int]);
        let prefix = component_key_prefix(&comp);
        let mut j: usize = 0;
        while j < comp.variables.len()
            invariant
                comp.instance == c0.instance,
                comp.name == c0.name,
                comp.evse == c0.evse,
                comp.connector == c0.connector,
                comp.variables@.len() == c0.variables.len(),
                0 <= j <= c0.variables.len(),
                prefix@ == key_prefix(c0),
                forall|m: int| 0 <= m < j ==> key_assigned(c0, c0.variables[m], #[trigger] comp.variables@[m]),
                forall|m: int| j <= m < c0.variables.len() ==> #[trigger] comp.variables@[m] == c0.variables[m],
            decreases c0.variables.len() - j,
        {
            if comp.variables[j].ocpp16_key.is_none() {
                let mut var = comp.variables.remove(j);
                let mut key = prefix.clone();
                key.append(var.name.as_str());
                var.ocpp16_key = Some(key);
                comp.variables.insert(j, var);
            }
            j = j + 1;
        }
        data.components.insert(i, comp);
        i = i + 1;
    }
    proof {
        assert forall|k: int| 0 <= k < old(data)@.len() implies component_keys_assigned(
            old(data)@[k],
            #[trigger] data@[k],
        ) by {
            assert(old(data)@[k] == orig[k]@);
            assert(data@[k] == data.components@[k]@);
        }
    }
}

/// Whether a variable has an OCPP 1.6 key.
pub open spec fn has_ocpp16_key(v: Variable) -> bool {
    v.ocpp16_key is Some
}

/// The predicate of variables that have an OCPP 1.6 key.
pub open spec fn keyed() -> spec_fn(Variable) -> bool {
    |v: Variable| has_ocpp16_key(v)
}

/// Whether a component is kept when the device model is narrowed to keyed
/// variables: EVSE and connector components always are, others while they have a
/// keyed variable.
pub open spec fn component_kept(c: ComponentView) -> bool {
    ||| c.name@ == "EVSE"@
    ||| c.name@ == "Connector"@
    ||| c.variables.filter(keyed()).len() > 0
}

/// The predicate of kept components.
pub open spec fn kept() -> spec_fn(ComponentView) -> bool {
    |c: ComponentView| component_kept(c)
}

/// A component with only its keyed variables.
pub open spec fn keyed_only(c: ComponentView) -> ComponentView {
    ComponentView { variables: c.variables.filter(keyed()), ..c }
}

/// The map from a component to its keyed part.
pub open spec fn to_keyed() -> spec_fn(ComponentView) -> ComponentView {
    |c: ComponentView| keyed_only(c)
}

/// The device model narrowed to the variables that have an OCPP 1.6 key.
pub open spec fn keyed_model(cs: Seq<ComponentView>) -> Seq<ComponentView> {
    cs.filter(kept()).map_values(to_keyed())
}

fn keyed_variables(vars: Vec<Variable>) -> (r: Vec<Variable>)
    ensures
        r@ == vars@.filter(keyed()),
{
    let ghost orig = vars@;
    let mut rest = vars;
    let mut out: Vec<Variable> = Vec::new();
    let ghost mut k: int = 0;
    proof {
        reveal(Seq::filter);
        assert(orig.take(0) =~= Seq::<Variable>::empty());
    }
    while rest.len() > 0
        invariant
            0 <= k <= orig.len(),
            rest@ == orig.skip(k),
            out@ == orig.take(k).filter(keyed()),
        decreases rest@.len(),
    {
        let v = rest.remove(0);
        proof {
            assert(v == orig[k]);
            lemma_filter_push(orig.take(k), keyed(), v);
            assert(orig.take(k + 1) =~= orig.take(k).push(v));
            assert(rest@ =~= orig.skip(k + 1));
        }
        if v.ocpp16_key.is_some() {
            out.push(v);
        }
        proof {
            k = k + 1;
        }
    }
    proof {
        assert(orig.skip(k).len() == 0);
        assert(orig.take(k) =~= orig);
    }
    out
}

/// Narrows the device model to the variables that have an OCPP 1.6 key; EVSE and
/// connector components are kept in any case, other components only while some
/// variable of theirs is left.
pub fn filter_components_with_ocpp16_key(data: GetVariableData) -> (r: GetVariableData)
    ensures
        r@ == keyed_model(data@),
{
    let ghost orig = data@;
    let mut rest = data.components;
    let mut out: Vec<Components> = Vec::new();
    let ghost mut k: int = 0;
    proof {
        reveal(Seq::filter);
        assert(orig.take(0) =~= Seq::<ComponentView>::empty());
        assert(component_views(out@) =~= keyed_model(orig.take(0)));
    }
    while rest.len() > 0
        invariant
            0 <= k <= orig.len(),
            component_views(rest@) == orig.skip(k),
            component_views(out@) == keyed_model(orig.take(k)),
        decreases rest@.len(),
    {
        let ghost rest_before = rest@;
        let comp = rest.remove(0);
        let ghost cv = comp@;
        proof {
            assert(component_views(rest_before).len() == rest_before.len());
            assert(orig.skip(k).len() == rest_before.len());
            assert(k < orig.len());
            assert(component_views(rest_before)[0] == cv);
            assert(orig.skip(k)[0] == orig[k]);
            assert(cv == orig[k]);
            assert(rest@ =~= rest_before.subrange(1, rest_before.len() as int));
            assert forall|m: int| 0 <= m < rest@.len() implies #[trigger] component_views(rest@)[m] == orig.skip(k + 1)[m] by {
                assert(rest@[m] == rest_before[m + 1]);
                assert(component_views(rest@)[m] == rest@[m]@);
                assert(component_views(rest_before)[m + 1] == rest_before[m + 1]@);
                assert(orig.skip(k + 1)[m] == orig[k + 1 + m]);
                assert(orig.skip(k)[m + 1] == orig[k + 1 + m]);
                assert(component_views(rest_before)[m + 1] == orig.skip(k)[m + 1]);
            }
            assert(component_views(rest@) =~= orig.skip(k + 1));
            lemma_filter_push(orig.take(k), kept(), cv);
            assert(orig.take(k + 1) =~= orig.take(k).push(cv));
        }
        let is_fixed = str_eq(comp.name.as_str(), "EVSE") || str_eq(comp.name.as_str(), "Connector");
        let variables = keyed_variables(comp.variables);
        if is_fixed || variables.len() > 0 {
            let kept_comp = Components {
                instance: comp.instance,
                name: comp.name,
                evse: comp.evse,
                connector: comp.connector,
                variables,
            };
            let ghost before = component_views(out@);
            out.push(kept_comp);
            proof {
                assert(kept_comp@ =~= keyed_only(cv));
                assert(component_views(out@) =~= before.push(keyed_only(cv)));
                assert(orig.take(k).filter(kept()).push(cv).map_values(to_keyed()) =~= orig.take(
                    k,
                ).filter(kept()).map_values(to_keyed()).push(keyed_only(cv)));
            }
        }
        proof {
            k = k + 1;
        }
    }
    proof {
        assert(orig.skip(k).len() == 0);
        assert(orig.take(k) =~= orig);
    }
    GetVariableData { components: out }
}

/// Whether a variable's OCPP 1.6 key is `key`.
pub open spec fn key_matches(v: Variable, key: Seq<char>) -> bool {
    v.ocpp16_key matches Some(k) && k@ == key
}

/// The position of the first variable from `j` on whose key is `key`.
pub open spec fn first_key_from(vars: Seq<Variable>, key: Seq<char>, j: int) -> Option<int>
    decreases vars.len() - j,
{
    if j < 0 || j >= vars.len() {
        None
    } else if key_matches(vars[j], key) {
        Some(j)
    } else {
        first_key_from(vars, key, j + 1)
    }
}

/// The component and variable positions of the first variable, from component `i`
/// on, whose key is `key`.
pub open spec fn first_key_position_from(cs: Seq<ComponentView>, key: Seq<char>, i: int) -> Option<
    (int, int),
>
    decreases cs.len() - i,
{
    if i < 0 || i >= cs.len() {
        None
    } else {
        match first_key_from(cs[i].variables, key, 0) {
            Some(j) => Some((i, j)),
            None => first_key_position_from(cs, key, i + 1),
        }
    }
}

/// Where the first variable with OCPP 1.6 key `key` stands in the device model.
pub open spec fn key_position(cs: Seq<ComponentView>, key: Seq<char>) -> Option<(int, int)> {
    first_key_position_from(cs, key, 0)
}

/// The first variable with OCPP 1.6 key `key`.
pub open spec fn lookup_key(cs: Seq<ComponentView>, key: Seq<char>) -> Option<Variable> {
    match key_position(cs, key) {
        Some((i, j)) => Some(cs[i].variables[j]),
        None => None,
    }
}

/// Whether the first variable with key `key`, if there is one, has a default value.
pub open spec fn default_present(cs: Seq<ComponentView>, key: Seq<char>) -> bool {
    match lookup_key(cs, key) {
        Some(v) => v.default_value is Some,
        None => true,
    }
}

/// The text of the default value of the first variable with key `key`.
pub open spec fn key_text(cs: Seq<ComponentView>, key: Seq<char>) -> Option<Seq<char>> {
    match lookup_key(cs, key) {
        Some(v) => match v.default_value {
            Some(d) => Some(value_text(d)),
            None => None,
        },
        None => None,
    }
}

proof fn lemma_first_key_from(vars: Seq<Variable>, key: Seq<char>, j: int)
    requires
        0 <= j,
    ensures
        first_key_from(vars, key, j) matches Some(m) ==> j <= m < vars.len() && key_matches(
            vars[m],
            key,
        ),
    decreases vars.len() - j,
{
    if j < vars.len() && !key_matches(vars[j], key) {
        lemma_first_key_from(vars, key, j + 1);
    }
}

proof fn lemma_first_key_position_from(cs: Seq<ComponentView>, key: Seq<char>, i: int)
    requires
        0 <= i,
    ensures
        first_key_position_from(cs, key, i) matches Some((c, m)) ==> i <= c < cs.len() && 0 <= m
            < cs[c].variables.len() && key_matches(cs[c].variables[m], key),
    decreases cs.len() - i,
{
    if i < cs.len() {
        lemma_first_key_from(cs[i].variables, key, 0);
        if first_key_from(cs[i].variables, key, 0) is None {
            lemma_first_key_position_from(cs, key, i + 1);
        }
    }
}

/// Finds where the first variable with OCPP 1.6 key `key` stands.
fn find_key_position(data: &GetVariableData, key: &str) -> (r: Option<(usize, usize)>)
    ensures
        match r {
            Some((i, j)) => key_position(data@, key@) == Some((i as int, j as int)),
            None => key_position(data@, key@) is None,
        },
{
    let mut i: usize = 0;
    while i < data.components.len()
        invariant
            0 <= i <= data@.len(),
            data@.len() == data.components@.len(),
            key_position(data@, key@) == first_key_position_from(data@, key@, i as int),
        decreases data.components@.len() - i,
    {
        let vars = &data.components[i].variables;
        assert(data@[i as int].variables == vars@);
        let mut j: usize = 0;
        while j < vars.len()
            invariant
                0 <= j <= vars@.len(),
                first_key_from(vars@, key@, 0) == first_key_from(vars@, key@, j as int),
                i < data@.len(),
                data@[i as int].variables == vars@,
                key_position(data@, key@) == first_key_position_from(data@, key@, i as int),
            decreases vars@.len() - j,
        {
            match &vars[j].ocpp16_key {
                Some(k) => {
                    if str_eq(k.as_str(), key) {
                        assert(key_matches(vars@[j as int], key@));
                        assert(first_key_from(vars@, key@, j as int) == Some(j as int));
                        return Some((i, j));
                    }
                },
                None => {},
            }
            j = j + 1;
        }
        i = i + 1;
    }
    None
}

/// Whether the first variable with OCPP 1.6 key `key`, if there is one, has a
/// default value, which reading its value needs.
pub fn key_default_present(data: &GetVariableData, ocpp16_key: &str) -> (r: bool)
    ensures
        r == default_present(data@, ocpp16_key@),
{
    proof {
        lemma_first_key_position_from(data@, ocpp16_key@, 0);
    }
    match find_key_position(data, ocpp16_key) {
        Some((i, j)) => {
            assert(data@[i as int].variables == data.components@[i as int].variables@);
            data.components[i].variables[j].default_value.is_some()
        },
        None => true,
    }
}

/// The default value, as text, of the first variable whose OCPP 1.6 key is `key`.
pub fn get_variable_value(data: &GetVariableData, ocpp16_key: &str) -> (r: Option<String>)
    requires
        default_present(data@, ocpp16_key@),
    ensures
        r is Some == (lookup_key(data@, ocpp16_key@) is Some),
        r matches Some(t) ==> key_text(data@, ocpp16_key@) == Some(t@),
{
    proof {
        lemma_first_key_position_from(data@, ocpp16_key@, 0);
    }
    match find_key_position(data, ocpp16_key) {
        Some((i, j)) => {
            assert(data@[i as int].variables == data.components@[i as int].variables@);
            match &data.components[i].variables[j].default_value {
                Some(d) => Some(d.to_string()),
                None => None,
            }
        },
        None => None,
    }
}

/// `b` is `a` with its default value set to the string `text`.
pub open spec fn default_set(a: Variable, b: Variable, text: Seq<char>) -> bool {
    &&& b.instance == a.instance
    &&& b.name == a.name
    &&& b.ocpp16_key == a.ocpp16_key
    &&& b.value == a.value
    &&& b.required == a.required
    &&& b.attributes == a.attributes
    &&& b.characteristics == a.characteristics
    &&& b.used == a.used
    &&& b.default_value matches Some(ValueType::String(s)) && s@ == text
}

/// `after` is `before` with the default of variable `j` of component `i` set to the
/// string `text`, and nothing else changed.
pub open spec fn default_set_at(
    before: Seq<ComponentView>,
    after: Seq<ComponentView>,
    i: int,
    j: int,
    text: Seq<char>,
) -> bool {
    &&& after.len() == before.len()
    &&& 0 <= i < before.len()
    &&& forall|c: int| 0 <= c < before.len() && c != i ==> #[trigger] after[c] == before[c]
    &&& after[i].instance == before[i].instance
    &&& after[i].name == before[i].name
    &&& after[i].evse == before[i].evse
    &&& after[i].connector == before[i].connector
    &&& after[i].variables.len() == before[i].variables.len()
    &&& 0 <= j < before[i].variables.len()
    &&& forall|m: int|
        0 <= m < before[i].variables.len() && m != j ==> #[trigger] after[i].variables[m]
            == before[i].variables[m]
    &&& default_set(before[i].variables[j], after[i].variables[j], text)
}

/// `after` is what setting the default of the first variable with key `key` to
/// `text` makes of `before`.
pub open spec fn key_value_set(
    before: Seq<ComponentView>,
    after: Seq<ComponentView>,
    key: Seq<char>,
    text: Seq<char>,
) -> bool {
    match key_position(before, key) {
        Some((i, j)) => default_set_at(before, after, i, j, text),
        None => after == before,
    }
}

/// Sets the default value of the first variable whose OCPP 1.6 key is `ocpp16_key`
/// to the string `new_value`; returns whether there was such a variable.
pub fn set_variable_value(data: &mut GetVariableData, ocpp16_key: &str, new_value: &str) -> (updated: bool)
    ensures
        updated == (key_position(old(data)@, ocpp16_key@) is Some),
        key_value_set(old(data)@, final(data)@, ocpp16_key@, new_value@),
{
    proof {
        lemma_first_key_position_from(data@, ocpp16_key@, 0);
    }
    match find_key_position(data, ocpp16_key) {
        Some((i, j)) => {
            let ghost before = data.components@;
            let mut comp = data.components.remove(i);
            assert(comp == before[i as int]);
            let mut var = comp.variables.remove(j);
            var.default_value = Some(ValueType::String(new_value.to_owned()));
            comp.variables.insert(j, var);
            data.components.insert(i, comp);
            proof {
                assert(data.components@ =~= before.update(i as int, comp));
                assert forall|c: int| 0 <= c < before.len() && c != i implies #[trigger] data@[c]
                    == old(data)@[c] by {
                    assert(data.components@[c] == before[c]);
                }
            }
            true
        },
        None => false,
    }
}

proof fn lemma_first_key_from_kept(
    before: Seq<Variable>,
    after: Seq<Variable>,
    key: Seq<char>,
    j: int,
    t: int,
)
    requires
        0 <= t <= j < before.len(),
        after.len() == before.len(),
        forall|m: int| 0 <= m < j ==> #[trigger] after[m] == before[m],
        key_matches(after[j], key),
        first_key_from(before, key, t) == Some(j),
    ensures
        first_key_from(after, key, t) == Some(j),
    decreases j - t,
{
    if t < j {
        assert(after[t] == before[t]);
        lemma_first_key_from_kept(before, after, key, j, t + 1);
    }
}

proof fn lemma_first_key_position_kept(
    before: Seq<ComponentView>,
    after: Seq<ComponentView>,
    key: Seq<char>,
    i: int,
    j: int,
    p: int,
    text: Seq<char>,
)
    requires
        0 <= p <= i,
        default_set_at(before, after, i, j, text),
        first_key_position_from(before, key, p) == Some((i, j)),
    ensures
        first_key_position_from(after, key, p) == Some((i, j)),
    decreases i - p,
{
    if p < i {
        assert(after[p] == before[p]);
        lemma_first_key_position_kept(before, after, key, i, j, p + 1, text);
    } else {
        lemma_first_key_position_from(before, key, i + 1);
        lemma_first_key_from(before[i].variables, key, 0);
        assert(first_key_from(before[i].variables, key, 0) == Some(j));
        assert(key_matches(before[i].variables[j], key));
        assert(key_matches(after[i].variables[j], key));
        lemma_first_key_from_kept(before[i].variables, after[i].variables, key, j, 0);
    }
}

/// Reading a key after a successful write gives what was written.
pub proof fn lemma_set_then_get(
    before: Seq<ComponentView>,
    after: Seq<ComponentView>,
    key: Seq<char>,
    text: Seq<char>,
)
    requires
        key_position(before, key) is Some,
        key_value_set(before, after, key, text),
    ensures
        key_position(after, key) == key_position(before, key),
        default_present(after, key),
        key_text(after, key) == Some(text),
{
    let (i, j) = key_position(before, key)->0;
    lemma_first_key_position_kept(before, after, key, i, j, 0, text);
}

/// A write to a key that no variable has changes nothing.
pub proof fn lemma_set_missing_key_unchanged(
    before: Seq<ComponentView>,
    after: Seq<ComponentView>,
    key: Seq<char>,
    text: Seq<char>,
)
    requires
        key_position(before, key) is None,
        key_value_set(before, after, key, text),
    ensures
        after == before,
{
}

/// The heartbeat interval that one key gives: its value read as a number, at
/// least 1.
pub open spec fn interval_from_text(t: Option<Seq<char>>) -> Option<u64> {
    match t {
        Some(text) => match parsed_u64(text) {
            Some(v) => Some(if v < 1 {
                1u64
            } else {
                v
            }),
            None => None,
        },
        None => None,
    }
}

/// The heartbeat interval, in seconds, that the device model sets: the first of the
/// keys `HeartBeatInterval`, `HeartbeatInterval`, `OCPPCommCtrlrHeartbeatInterval`
/// whose value reads as a number (at least 1), else 30.
pub open spec fn heartbeat_interval(cs: Seq<ComponentView>) -> u64 {
    match interval_from_text(key_text(cs, "HeartBeatInterval"@)) {
        Some(v) => v,
        None => match interval_from_text(key_text(cs, "HeartbeatInterval"@)) {
            Some(v) => v,
            None => match interval_from_text(key_text(cs, "OCPPCommCtrlrHeartbeatInterval"@)) {
                Some(v) => v,
                None => 30,
            },
        },
    }
}

/// Whether reading the heartbeat interval finds a default value wherever it looks:
/// each key it tries, until one gives a number.
pub open spec fn heartbeat_readable(cs: Seq<ComponentView>) -> bool {
    &&& default_present(cs, "HeartBeatInterval"@)
    &&& interval_from_text(key_text(cs, "HeartBeatInterval"@)) is None ==> {
        &&& default_present(cs, "HeartbeatInterval"@)
        &&& interval_from_text(key_text(cs, "HeartbeatInterval"@)) is None ==> default_present(
            cs,
            "OCPPCommCtrlrHeartbeatInterval"@,
        )
    }
}

fn interval_from_key(data: &GetVariableData, key: &str) -> (r: Option<u64>)
    requires
        default_present(data@, key@),
    ensures
        r == interval_from_text(key_text(data@, key@)),
{
    match get_variable_value(data, key) {
        Some(text) => match parse_u64(text.as_str()) {
            Some(v) => Some(if v < 1 {
                1
            } else {
                v
            }),
            None => None,
        },
        None => None,
    }
}

/// Whether `get_heartbeat_interval` can read the device model.
pub fn heartbeat_interval_readable(data: &GetVariableData) -> (r: bool)
    ensures
        r == heartbeat_readable(data@),
{
    if !key_default_present(data, "HeartBeatInterval") {
        return false;
    }
    if interval_from_key(data, "HeartBeatInterval").is_some() {
        return true;
    }
    if !key_default_present(data, "HeartbeatInterval") {
        return false;
    }
    if interval_from_key(data, "HeartbeatInterval").is_some() {
        return true;
    }
    key_default_present(data, "OCPPCommCtrlrHeartbeatInterval")
}

/// The heartbeat interval in seconds that the device model sets.
pub fn get_heartbeat_interval(data: &GetVariableData) -> (r: u64)
    requires
        heartbeat_readable(data@),
    ensures
        r == heartbeat_interval(data@),
        r >= 1,
{
    if let Some(v) = interval_from_key(data, "HeartBeatInterval") {
        return v;
    }
    if let Some(v) = interval_from_key(data, "HeartbeatInterval") {
        return v;
    }
    if let Some(v) = interval_from_key(data, "OCPPCommCtrlrHeartbeatInterval") {
        return v;
    }
    if let Some(v) = interval_from_key(data, "OCPPCommCtrlrHeartbeatInterval") {
        return v;
    }
    30
}

/// The interval in seconds between meter value reports while charging: the value
/// of `MeterValueSampleInterval` read as a number, 30 when it is not one, and 300
/// when no variable has that key.
pub open spec fn sample_interval(cs: Seq<ComponentView>) -> u64 {
    match key_text(cs, "MeterValueSampleInterval"@) {
        Some(t) => match parsed_u64(t) {
            Some(v) => v,
            None => 30,
        },
        None => 300,
    }
}

/// The interval in seconds between meter value reports while charging.
pub fn meter_value_sample_interval(data: &GetVariableData) -> (r: u64)
    requires
        default_present(data@, "MeterValueSampleInterval"@),
    ensures
        r == sample_interval(data@),
{
    match get_variable_value(data, "MeterValueSampleInterval") {
        Some(text) => match parse_u64(text.as_str()) {
            Some(v) => v,
            None => 30,
        },
        None => 300,
    }
}

} // verus!
