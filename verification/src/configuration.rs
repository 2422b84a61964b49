//! What the device model answers a central system's GetConfiguration request with,
//! and which meter values it is set to report.

use vstd::prelude::*;
use vstd::string::*;
use crate::cp_data::{value_text, ComponentView, GetVariableData, Variable};
use crate::text::{split_on, split_text, str_eq, texts, trimmed};
use crate::device_model::{key_position, key_value_set, set_variable_value};

verus! {

/// One configuration key in a GetConfiguration answer.
#[derive(Clone, Debug, PartialEq, Eq)]
pub struct ConfigurationKey {
    pub key: String,
    pub value: Option<String>,
    pub readonly: bool,
}

/// A configuration key, with its texts as sequences.
pub struct ConfigurationKeyView {
    pub key: Seq<char>,
    pub value: Option<Seq<char>>,
    pub readonly: bool,
}

impl View for ConfigurationKey {
    type V = ConfigurationKeyView;

    open spec fn view(&self) -> ConfigurationKeyView {
        ConfigurationKeyView {
            key: self.key@,
            value: match self.value {
                Some(v) => Some(v@),
                None => None,
            },
            readonly: self.readonly,
        }
    }
}

/// The answer to a GetConfiguration request: the keys found, and those asked for
/// that no variable has.
#[derive(Clone, Debug, PartialEq, Eq)]
pub struct GetConfigurationResult {
    pub configuration_key: Option<Vec<ConfigurationKey>>,
    pub unknown_key: Option<Vec<String>>,
}

/// Whether a variable answers a request for `key`: its key is `key`, or it has no
/// key and `key` is empty.
pub open spec fn answers_key(v: Variable, key: Seq<char>) -> bool {
    match v.ocpp16_key {
        Some(k) => k@ == key,
        None => key == Seq::<char>::empty(),
    }
}

/// The position of the first variable from `j` on that answers `key`.
pub open spec fn first_answer_from(vars: Seq<Variable>, key: Seq<char>, j: int) -> Option<int>
    decreases vars.len() - j,
{
    if j < 0 || j >= vars.len() {
        None
    } else if answers_key(vars[j], key) {
        Some(j)
    } else {
        first_answer_from(vars, key, j + 1)
    }
}

/// The entry that variable `v` gives for `key`.
pub open spec fn entry_for(v: Variable, key: Seq<char>) -> ConfigurationKeyView {
    ConfigurationKeyView {
        key: key,
        value: Some(value_text(v.default_value->0)),
        readonly: v.attributes.mutability@ == "ReadOnly"@,
    }
}

/// The entries for `key` from the first `n` components: from each, its first
/// variable that answers `key`.
pub open spec fn entries_upto(cs: Seq<ComponentView>, key: Seq<char>, n: int) -> Seq<
    ConfigurationKeyView,
>
    decreases n,
{
    if n <= 0 || n > cs.len() {
        Seq::empty()
    } else {
        let before = entries_upto(cs, key, n - 1);
        match first_answer_from(cs[n - 1].variables, key, 0) {
            Some(m) => before.push(entry_for(cs[n - 1].variables[m], key)),
            None => before,
        }
    }
}

/// Whether every variable that answers `key` in the first `n` components has a
/// default value.
pub open spec fn answers_have_defaults(cs: Seq<ComponentView>, key: Seq<char>, n: int) -> bool
    decreases n,
{
    if n <= 0 || n > cs.len() {
        true
    } else {
        answers_have_defaults(cs, key, n - 1) && match first_answer_from(
            cs[n - 1].variables,
            key,
            0,
        ) {
            Some(m) => cs[n - 1].variables[m].default_value is Some,
            None => true,
        }
    }
}

/// The entries found for the first `n` requested keys.
pub open spec fn found_upto(cs: Seq<ComponentView>, keys: Seq<Seq<char>>, n: int) -> Seq<
    ConfigurationKeyView,
>
    decreases n,
{
    if n <= 0 || n > keys.len() {
        Seq::empty()
    } else {
        found_upto(cs, keys, n - 1) + entries_upto(cs, keys[n - 1], cs.len() as int)
    }
}

/// The first `n` requested keys that no variable answers.
pub open spec fn unknown_upto(cs: Seq<ComponentView>, keys: Seq<Seq<char>>, n: int) -> Seq<
    Seq<char>,
>
    decreases n,
{
    if n <= 0 || n > keys.len() {
        Seq::empty()
    } else if entries_upto(cs, keys[n - 1], cs.len() as int).len() == 0 {
        unknown_upto(cs, keys, n - 1).push(keys[n - 1])
    } else {
        unknown_upto(cs, keys, n - 1)
    }
}

/// Whether every variable that answers one of the requested keys has a default value.
pub open spec fn requested_defaults_present(cs: Seq<ComponentView>, keys: Seq<Seq<char>>) -> bool {
    forall|k: int| 0 <= k < keys.len() ==> answers_have_defaults(cs, #[trigger] keys[k], cs.len() as int)
}

/// The views of a sequence of configuration keys.
pub open spec fn entry_views(es: Seq<ConfigurationKey>) -> Seq<ConfigurationKeyView> {
    es.map_values(|e: ConfigurationKey| e@)
}

/// A sequence, or nothing when it is empty.
pub open spec fn nonempty_or_none<A>(s: Seq<A>) -> Option<Seq<A>> {
    if s.len() == 0 {
        None
    } else {
        Some(s)
    }
}

fn answer_position(vars: &Vec<Variable>, key: &str) -> (r: Option<usize>)
    ensures
        match r {
            Some(m) => first_answer_from(vars@, key@, 0) == Some(m as int),
            None => first_answer_from(vars@, key@, 0) is None,
        },
{
    let mut j: usize = 0;
    while j < vars.len()
        invariant
            0 <= j <= vars@.len(),
            first_answer_from(vars@, key@, 0) == first_answer_from(vars@, key@, j as int),
        decreases vars@.len() - j,
    {
        let answers = match &vars[j].ocpp16_key {
            Some(k) => str_eq(k.as_str(), key),
            None => str_eq("", key),
        };
        proof {
            reveal_strlit("");
            assert(""@ =~= Seq::<char>::empty());
            assert(answers == answers_key(vars@[j as int], key@));
        }
        if answers {
            return Some(j);
        }
        j = j + 1;
    }
    None
}

proof fn lemma_first_answer_from(vars: Seq<Variable>, key: Seq<char>, j: int)
    requires
        0 <= j,
    ensures
        first_answer_from(vars, key, j) matches Some(m) ==> j <= m < vars.len(),
    decreases vars.len() - j,
{
    if j < vars.len() && !answers_key(vars[j], key) {
        lemma_first_answer_from(vars, key, j + 1);
    }
}

/// Every entry that the first `n` components give for `key` comes from a variable
/// of one of them, the first of that component to answer `key`: the entry names
/// `key`, carries the variable's default value as text, and is read-only exactly
/// when the variable's mutability is `ReadOnly`.
pub proof fn lemma_entries_follow_their_variables(cs: Seq<ComponentView>, key: Seq<char>, n: int)
    requires
        0 <= n <= cs.len(),
    ensures
        forall|k: int|
            0 <= k < entries_upto(cs, key, n).len() ==> exists|i: int, m: int|
                {
                    &&& 0 <= i < n
                    &&& first_answer_from(cs[i].variables, key, 0) == Some(m)
                    &&& 0 <= m < cs[i].variables.len()
                    &&& answers_key(cs[i].variables[m], key)
                    &&& (#[trigger] entries_upto(cs, key, n)[k]).key == key
                    &&& entries_upto(cs, key, n)[k].value == Some(
                        value_text(cs[i].variables[m].default_value->0),
                    )
                    &&& entries_upto(cs, key, n)[k].readonly == (cs[i].variables[m].attributes.mutability@
                        == "ReadOnly"@)
                },
    decreases n,
{
    if n > 0 {
        lemma_entries_follow_their_variables(cs, key, n - 1);
        let before = entries_upto(cs, key, n - 1);
        let after = entries_upto(cs, key, n);
        lemma_first_answer_from(cs[n - 1].variables, key, 0);
        assert forall|k: int| 0 <= k < after.len() implies exists|i: int, m: int|
            {
                &&& 0 <= i < n
                &&& first_answer_from(cs[i].variables, key, 0) == Some(m)
                &&& 0 <= m < cs[i].variables.len()
                &&& answers_key(cs[i].variables[m], key)
                &&& (#[trigger] entries_upto(cs, key, n)[k]).key == key
                &&& entries_upto(cs, key, n)[k].value == Some(value_text(cs[i].variables[m].default_value->0))
                &&& entries_upto(cs, key, n)[k].readonly == (cs[i].variables[m].attributes.mutability@
                    == "ReadOnly"@)
            } by {
            if k < before.len() {
                assert(after[k] == before[k]);
                assert(exists|i: int, m: int|
                    {
                        &&& 0 <= i < n - 1
                        &&& first_answer_from(cs[i].variables, key, 0) == Some(m)
                        &&& 0 <= m < cs[i].variables.len()
                        &&& answers_key(cs[i].variables[m], key)
                        &&& (#[trigger] entries_upto(cs, key, n - 1)[k]).key == key
                        &&& entries_upto(cs, key, n - 1)[k].value == Some(
                            value_text(cs[i].variables[m].default_value->0),
                        )
                        &&& entries_upto(cs, key, n - 1)[k].readonly == (
                        cs[i].variables[m].attributes.mutability@ == "ReadOnly"@)
                    });
            } else {
                let m = first_answer_from(cs[n - 1].variables, key, 0)->0;
                lemma_first_answer_is_answer(cs[n - 1].variables, key, 0);
                assert(after[k] == entry_for(cs[n - 1].variables[m], key));
                assert(first_answer_from(cs[n - 1].variables, key, 0) == Some(m));
            }
        }
    }
}

/// Every entry of a GetConfiguration answer for the first `n` requested keys is for
/// one of those keys and comes from a variable that answers it, the first of its
/// component to do so: with that variable's default value as text, and read-only
/// exactly when the variable's mutability is `ReadOnly`.
pub proof fn lemma_found_entries_follow_their_variables(cs: Seq<ComponentView>, keys: Seq<Seq<char>>, n: int)
    requires
        0 <= n <= keys.len(),
    ensures
        forall|k: int|
            0 <= k < found_upto(cs, keys, n).len() ==> exists|q: int, i: int, m: int|
                {
                    &&& 0 <= q < n
                    &&& 0 <= i < cs.len()
                    &&& first_answer_from(cs[i].variables, keys[q], 0) == Some(m)
                    &&& 0 <= m < cs[i].variables.len()
                    &&& answers_key(cs[i].variables[m], keys[q])
                    &&& (#[trigger] found_upto(cs, keys, n)[k]).key == keys[q]
                    &&& found_upto(cs, keys, n)[k].value == Some(value_text(cs[i].variables[m].default_value->0))
                    &&& found_upto(cs, keys, n)[k].readonly == (cs[i].variables[m].attributes.mutability@
                        == "ReadOnly"@)
                },
    decreases n,
{
    if n > 0 {
        lemma_found_entries_follow_their_variables(cs, keys, n - 1);
        let before = found_upto(cs, keys, n - 1);
        let added = entries_upto(cs, keys[n - 1], cs.len() as int);
        let after = found_upto(cs, keys, n);
        assert(after == before + added);
        lemma_entries_follow_their_variables(cs, keys[n - 1], cs.len() as int);
        assert forall|k: int| 0 <= k < after.len() implies exists|q: int, i: int, m: int|
            {
                &&& 0 <= q < n
                &&& 0 <= i < cs.len()
                &&& first_answer_from(cs[i].variables, keys[q], 0) == Some(m)
                &&& 0 <= m < cs[i].variables.len()
                &&& answers_key(cs[i].variables[m], keys[q])
                &&& (#[trigger] found_upto(cs, keys, n)[k]).key == keys[q]
                &&& found_upto(cs, keys, n)[k].value == Some(value_text(cs[i].variables[m].default_value->0))
                &&& found_upto(cs, keys, n)[k].readonly == (cs[i].variables[m].attributes.mutability@
                    == "ReadOnly"@)
            } by {
            if k < before.len() {
                assert(after[k] == before[k]);
                assert(exists|q: int, i: int, m: int|
                    {
                        &&& 0 <= q < n - 1
                        &&& 0 <= i < cs.len()
                        &&& first_answer_from(cs[i].variables, keys[q], 0) == Some(m)
                        &&& 0 <= m < cs[i].variables.len()
                        &&& answers_key(cs[i].variables[m], keys[q])
                        &&& (#[trigger] found_upto(cs, keys, n - 1)[k]).key == keys[q]
                        &&& found_upto(cs, keys, n - 1)[k].value == Some(
                            value_text(cs[i].variables[m].default_value->0),
                        )
                        &&& found_upto(cs, keys, n - 1)[k].readonly == (
                        cs[i].variables[m].attributes.mutability@ == "ReadOnly"@)
                    });
            } else {
                let k2 = k - before.len();
                assert(after[k] == added[k2]);
                assert(exists|i: int, m: int|
                    {
                        &&& 0 <= i < cs.len()
                        &&& first_answer_from(cs[i].variables, keys[n - 1], 0) == Some(m)
                        &&& 0 <= m < cs[i].variables.len()
                        &&& answers_key(cs[i].variables[m], keys[n - 1])
                        &&& (#[trigger] entries_upto(cs, keys[n - 1], cs.len() as int)[k2]).key == keys[n - 1]
                        &&& entries_upto(cs, keys[n - 1], cs.len() as int)[k2].value == Some(
                            value_text(cs[i].variables[m].default_value->0),
                        )
                        &&& entries_upto(cs, keys[n - 1], cs.len() as int)[k2].readonly == (
                        cs[i].variables[m].attributes.mutability@ == "ReadOnly"@)
                    });
            }
        }
    }
}

proof fn lemma_first_answer_is_answer(vars: Seq<Variable>, key: Seq<char>, j: int)
    ensures
        first_answer_from(vars, key, j) matches Some(m) ==> answers_key(vars[m], key),
    decreases vars.len() - j,
{
    if 0 <= j < vars.len() && !answers_key(vars[j], key) {
        lemma_first_answer_is_answer(vars, key, j + 1);
    }
}

fn entries_for_key(data: &GetVariableData, key: &String, out: &mut Vec<ConfigurationKey>)
    requires
        answers_have_defaults(data@, key@, data@.len() as int),
    ensures
        entry_views(final(out)@) == entry_views(old(out)@) + entries_upto(
            data@,
            key@,
            data@.len() as int,
        ),
{
    let ghost start = old(out)@;
    let mut i: usize = 0;
    proof {
        assert(entry_views(out@) =~= entry_views(start) + entries_upto(data@, key@, 0));
    }
    while i < data.components.len()
        invariant
            0 <= i <= data@.len(),
            data@.len() == data.components@.len(),
            answers_have_defaults(data@, key@, data@.len() as int),
            entry_views(out@) == entry_views(start) + entries_upto(data@, key@, i as int),
        decreases data.components@.len() - i,
    {
        let vars = &data.components[i].variables;
        assert(data@[i as int].variables == vars@);
        proof {
            lemma_answers_prefix(data@, key@, data@.len() as int, i + 1);
        }
        match answer_position(vars, key.as_str()) {
            Some(m) => {
                proof {
                    lemma_first_answer_from(vars@, key@, 0);
                }
                let v = &vars[m];
                let text = match &v.default_value {
                    Some(d) => d.to_string(),
                    None => String::new(),
                };
                let readonly = str_eq(v.attributes.mutability.as_str(), "ReadOnly");
                let entry = ConfigurationKey { key: key.clone(), value: Some(text), readonly };
                let ghost before = entry_views(out@);
                out.push(entry);
                proof {
                    assert(entry@ == entry_for(vars@[m as int], key@));
                    assert(entry_views(out@) =~= before.push(entry@));
                }
            },
            None => {},
        }
        i = i + 1;
    }
}

proof fn lemma_answers_prefix(cs: Seq<ComponentView>, key: Seq<char>, n: int, k: int)
    requires
        answers_have_defaults(cs, key, n),
        0 < k <= n <= cs.len(),
    ensures
        answers_have_defaults(cs, key, k),
        first_answer_from(cs[k - 1].variables, key, 0) matches Some(m) ==> cs[k
            - 1].variables[m].default_value is Some,
    decreases n - k,
{
    if k < n {
        lemma_answers_prefix(cs, key, n - 1, k);
    }
}

fn key_answers_have_defaults(data: &GetVariableData, key: &str) -> (r: bool)
    ensures
        r == answers_have_defaults(data@, key@, data@.len() as int),
{
    let mut i: usize = 0;
    while i < data.components.len()
        invariant
            0 <= i <= data@.len(),
            data@.len() == data.components@.len(),
            answers_have_defaults(data@, key@, i as int),
        decreases data.components@.len() - i,
    {
        let vars = &data.components[i].variables;
        assert(data@[i as int].variables == vars@);
        match answer_position(vars, key) {
            Some(m) => {
                proof {
                    lemma_first_answer_from(vars@, key@, 0);
                }
                if vars[m].default_value.is_none() {
                    proof {
                        if answers_have_defaults(data@, key@, data@.len() as int) {
                            lemma_answers_prefix(data@, key@, data@.len() as int, i + 1);
                        }
                    }
                    return false;
                }
            },
            None => {},
        }
        i = i + 1;
    }
    true
}

/// Whether answering a GetConfiguration request finds a default value in every
/// variable that answers one of the requested keys, as reading the answer needs.
pub fn configuration_readable(data: &GetVariableData, keys: &Option<Vec<String>>) -> (r: bool)
    ensures
        r == (match keys {
            Some(ks) => requested_defaults_present(data@, texts(ks@)),
            None => true,
        }),
{
    match keys {
        Some(ks) => {
            let ghost t = texts(ks@);
            let mut j: usize = 0;
            while j < ks.len()
                invariant
                    0 <= j <= ks@.len(),
                    t == texts(ks@),
                    t.len() == ks@.len(),
                    *keys == Some(*ks),
                    forall|k: int| 0 <= k < j ==> answers_have_defaults(data@, #[trigger] t[k], data@.len() as int),
                decreases ks@.len() - j,
            {
                assert(t[j as int] == ks@[j as int]@);
                if !key_answers_have_defaults(data, ks[j].as_str()) {
                    proof {
                        assert(!answers_have_defaults(data@, t[j as int], data@.len() as int));
                    }
                    return false;
                }
                j = j + 1;
            }
            true
        },
        None => true,
    }
}

/// Answers a GetConfiguration request: with no keys asked for, nothing; otherwise,
/// for each requested key in order, an entry from each component whose variables
/// answer it (the first such variable of the component), with the default value as
/// text and whether the variable is read-only; and the keys that nothing answers.
pub fn get_configuration(data: &GetVariableData, keys: &Option<Vec<String>>) -> (r:
    GetConfigurationResult)
    requires
        keys matches Some(ks) ==> requested_defaults_present(data@, texts(ks@)),
    ensures
        keys is None ==> r.configuration_key is None && r.unknown_key is None,
        keys matches Some(ks) ==> {
            &&& (match r.configuration_key {
                Some(es) => Some(entry_views(es@)),
                None => None,
            }) == nonempty_or_none(found_upto(data@, texts(ks@), ks@.len() as int))
            &&& (match r.unknown_key {
                Some(us) => Some(texts(us@)),
                None => None,
            }) == nonempty_or_none(unknown_upto(data@, texts(ks@), ks@.len() as int))
        },
{
    match keys {
        None => GetConfigurationResult { configuration_key: None, unknown_key: None },
        Some(ks) => {
            let mut found: Vec<ConfigurationKey> = Vec::new();
            let mut unknown: Vec<String> = Vec::new();
            let mut k: usize = 0;
            proof {
                assert(entry_views(found@) =~= found_upto(data@, texts(ks@), 0));
                assert(texts(unknown@) =~= unknown_upto(data@, texts(ks@), 0));
            }
            while k < ks.len()
                invariant
                    0 <= k <= ks@.len(),
                    requested_defaults_present(data@, texts(ks@)),
                    entry_views(found@) == found_upto(data@, texts(ks@), k as int),
                    texts(unknown@) == unknown_upto(data@, texts(ks@), k as int),
                decreases ks@.len() - k,
            {
                let key = &ks[k];
                assert(texts(ks@)[k as int] == key@);
                let before = found.len();
                entries_for_key(data, key, &mut found);
                let ghost added = entries_upto(data@, key@, data@.len() as int);
                assert(entry_views(found@).len() == found@.len());
                if found.len() == before {
                    let ghost old_unknown = texts(unknown@);
                    unknown.push(key.clone());
                    proof {
                        assert(texts(unknown@) =~= old_unknown.push(key@));
                    }
                }
                proof {
                    assert(entry_views(found@) =~= found_upto(data@, texts(ks@), k + 1));
                }
                k = k + 1;
            }
            let configuration_key = if found.len() == 0 {
                None
            } else {
                Some(found)
            };
            let unknown_key = if unknown.len() == 0 {
                None
            } else {
                Some(unknown)
            };
            GetConfigurationResult { configuration_key, unknown_key }
        },
    }
}

/// Whether a component is the charge point's own AlignedDataCtrlr (not an EVSE's).
pub open spec fn is_aligned_root(c: ComponentView) -> bool {
    c.name@ == "AlignedDataCtrlr"@ && c.evse is None
}

/// The measurand setting after the first `n` variables: the text of the default of
/// the last `Measurands` variable with one, else `prior`.
pub open spec fn measurand_setting_in(vars: Seq<Variable>, n: int, prior: Seq<char>) -> Seq<char>
    decreases n,
{
    if n <= 0 || n > vars.len() {
        prior
    } else {
        let before = measurand_setting_in(vars, n - 1, prior);
        if vars[n - 1].name@ == "Measurands"@ && vars[n - 1].default_value is Some {
            value_text(vars[n - 1].default_value->0)
        } else {
            before
        }
    }
}

/// The measurand setting after the first `n` components: the last `Measurands`
/// default of the charge point's own AlignedDataCtrlr components, else empty.
pub open spec fn measurand_setting_upto(cs: Seq<ComponentView>, n: int) -> Seq<char>
    decreases n,
{
    if n <= 0 || n > cs.len() {
        Seq::empty()
    } else {
        let before = measurand_setting_upto(cs, n - 1);
        if is_aligned_root(cs[n - 1]) {
            measurand_setting_in(cs[n - 1].variables, cs[n - 1].variables.len() as int, before)
        } else {
            before
        }
    }
}

/// The comma-separated list of measurands that meter values report.
pub fn configured_measurands(data: &GetVariableData) -> (r: String)
    ensures
        r@ == measurand_setting_upto(data@, data@.len() as int),
{
    let mut setting = String::new();
    let mut i: usize = 0;
    while i < data.components.len()
        invariant
            0 <= i <= data@.len(),
            data@.len() == data.components@.len(),
            setting@ == measurand_setting_upto(data@, i as int),
        decreases data.components@.len() - i,
    {
        let comp = &data.components[i];
        assert(data@[i as int] == comp@);
        if str_eq(comp.name.as_str(), "AlignedDataCtrlr") && comp.evse.is_none() {
            let ghost prior = setting@;
            let mut j: usize = 0;
            while j < comp.variables.len()
                invariant
                    0 <= j <= comp.variables@.len(),
                    setting@ == measurand_setting_in(comp.variables@, j as int, prior),
                decreases comp.variables@.len() - j,
            {
                let var = &comp.variables[j];
                if str_eq(var.name.as_str(), "Measurands") {
                    match &var.default_value {
                        Some(d) => {
                            setting = d.to_string();
                        },
                        None => {},
                    }
                }
                j = j + 1;
            }
        }
        i = i + 1;
    }
    setting
}

/// The quantities that meter values can report.
#[derive(Clone, Copy, Debug, PartialEq, Eq)]
pub enum MeasurandKind {
    EnergyActiveImportRegister,
    PowerActiveImport,
    CurrentImport,
}

/// The measurand that a name stands for, if it is one that meter values report.
pub open spec fn measurand_named(name: Seq<char>) -> Option<MeasurandKind> {
    if name == "Energy.Active.Import.Register"@ {
        Some(MeasurandKind::EnergyActiveImportRegister)
    } else if name == "Power.Active.Import"@ {
        Some(MeasurandKind::PowerActiveImport)
    } else if name == "Current.Import"@ {
        Some(MeasurandKind::CurrentImport)
    } else {
        None
    }
}

/// The measurands named by the first `n` pieces of a setting, each trimmed, in order,
/// leaving out names that are not reported.
pub open spec fn measurands_upto(pieces: Seq<Seq<char>>, n: int) -> Seq<MeasurandKind>
    decreases n,
{
    if n <= 0 || n > pieces.len() {
        Seq::empty()
    } else {
        match measurand_named(trimmed(pieces[n - 1])) {
            Some(m) => measurands_upto(pieces, n - 1).push(m),
            None => measurands_upto(pieces, n - 1),
        }
    }
}

/// The measurands that a comma-separated setting names, in order, as meter values
/// report them; names of other quantities are left out.
pub open spec fn reported_measurands(setting: Seq<char>) -> Seq<MeasurandKind> {
    measurands_upto(split_on(setting, ','), split_on(setting, ',').len() as int)
}

fn measurand_of(name: &str) -> (r: Option<MeasurandKind>)
    ensures
        r == measurand_named(name@),
{
    if str_eq(name, "Energy.Active.Import.Register") {
        Some(MeasurandKind::EnergyActiveImportRegister)
    } else if str_eq(name, "Power.Active.Import") {
        Some(MeasurandKind::PowerActiveImport)
    } else if str_eq(name, "Current.Import") {
        Some(MeasurandKind::CurrentImport)
    } else {
        None
    }
}

/// The measurands that a comma-separated setting names, in order.
pub fn measurands_from_setting(setting: &str) -> (r: Vec<MeasurandKind>)
    ensures
        r@ == reported_measurands(setting@),
{
    let pieces = split_text(setting, ',');
    let ghost ps = split_on(setting@, ',');
    let mut out: Vec<MeasurandKind> = Vec::new();
    let mut k: usize = 0;
    assert(pieces@.len() == ps.len());
    while k < pieces.len()
        invariant
            0 <= k <= pieces@.len(),
            pieces@.map_values(|p: String| p@) == ps,
            out@ == measurands_upto(ps, k as int),
        decreases pieces@.len() - k,
    {
        assert(ps[k as int] == pieces@[k as int]@);
        let name = pieces[k].as_str().trim();
        match measurand_of(name) {
            Some(m) => out.push(m),
            None => {},
        }
        k = k + 1;
    }
    out
}

/// The meter reading that the device model starts an EVSE at, as text: the default
/// of the first `MeterEnergy` variable of the charge point's first own
/// AlignedDataCtrlr component.
pub open spec fn meter_energy_setting(cs: Seq<ComponentView>) -> Option<Seq<char>> {
    if exists|i: int| 0 <= i < cs.len() && is_aligned_root(cs[i]) {
        let i = choose|i: int|
            0 <= i < cs.len() && is_aligned_root(cs[i]) && forall|k: int|
                0 <= k < i ==> !is_aligned_root(#[trigger] cs[k]);
        let vars = cs[i].variables;
        if exists|j: int| 0 <= j < vars.len() && vars[j].name@ == "MeterEnergy"@ {
            let j = choose|j: int|
                0 <= j < vars.len() && vars[j].name@ == "MeterEnergy"@ && forall|k: int|
                    0 <= k < j ==> (#[trigger] vars[k]).name@ != "MeterEnergy"@;
            match vars[j].default_value {
                Some(d) => Some(value_text(d)),
                None => None,
            }
        } else {
            None
        }
    } else {
        None
    }
}

/// The starting meter reading that the device model sets, as text.
pub fn meter_energy_default(data: &GetVariableData) -> (r: Option<String>)
    ensures
        match r {
            Some(t) => meter_energy_setting(data@) == Some(t@),
            None => meter_energy_setting(data@) is None,
        },
{
    let mut i: usize = 0;
    while i < data.components.len()
        invariant
            0 <= i <= data@.len(),
            data@.len() == data.components@.len(),
            forall|k: int| 0 <= k < i ==> !is_aligned_root(#[trigger] data@[k]),
        decreases data.components@.len() - i,
    {
        let comp = &data.components[i];
        assert(data@[i as int] == comp@);
        if str_eq(comp.name.as_str(), "AlignedDataCtrlr") && comp.evse.is_none() {
            let ghost cs = data@;
            assert(is_aligned_root(cs[i as int]));
            proof {
                let c = choose|c: int|
                    0 <= c < cs.len() && is_aligned_root(cs[c]) && forall|k: int|
                        0 <= k < c ==> !is_aligned_root(#[trigger] cs[k]);
                assert(c == i) by {
                    if c < i {
                        assert(!is_aligned_root(cs[c]));
                    } else if c > i {
                        assert(!is_aligned_root(cs[i as int]));
                    }
                }
            }
            let vars = &comp.variables;
            let mut j: usize = 0;
            while j < vars.len()
                invariant
                    0 <= j <= vars@.len(),
                    forall|k: int| 0 <= k < j ==> (#[trigger] vars@[k]).name@ != "MeterEnergy"@,
                    i < data@.len(),
                    vars@ == data@[i as int].variables,
                    is_aligned_root(data@[i as int]),
                    forall|k: int| 0 <= k < i ==> !is_aligned_root(#[trigger] data@[k]),
                decreases vars@.len() - j,
            {
                if str_eq(vars[j].name.as_str(), "MeterEnergy") {
                    proof {
                        let cs = data@;
                        let c = choose|c: int|
                            0 <= c < cs.len() && is_aligned_root(cs[c]) && forall|k: int|
                                0 <= k < c ==> !is_aligned_root(#[trigger] cs[k]);
                        assert(c == i) by {
                            if c < i {
                                assert(!is_aligned_root(cs[c]));
                            } else if c > i {
                                assert(!is_aligned_root(cs[i as int]));
                            }
                        }
                        let vs = vars@;
                        assert(vs[j as int].name@ == "MeterEnergy"@);
                        let m = choose|m: int|
                            0 <= m < vs.len() && vs[m].name@ == "MeterEnergy"@ && forall|k: int|
                                0 <= k < m ==> (#[trigger] vs[k]).name@ != "MeterEnergy"@;
                        assert(m == j) by {
                            if m < j {
                                assert(vs[m].name@ != "MeterEnergy"@);
                            } else if m > j {
                                assert(vs[j as int].name@ != "MeterEnergy"@);
                            }
                        }
                    }
                    return match &vars[j].default_value {
                        Some(d) => Some(d.to_string()),
                        None => None,
                    };
                }
                j = j + 1;
            }
            return None;
        }
        i = i + 1;
    }
    None
}

/// The answer to a ChangeConfiguration request.
#[derive(Clone, Copy, Debug, PartialEq, Eq)]
pub enum ConfigurationStatus {
    Accepted,
    NotSupported,
}

/// Carries out a ChangeConfiguration request: the first variable with the key takes
/// the value as its default, and the request is accepted; a key that no variable
/// has is not supported, and nothing changes.
pub fn change_configuration(data: &mut GetVariableData, key: &str, value: &str) -> (r: ConfigurationStatus)
    ensures
        key_value_set(old(data)@, final(data)@, key@, value@),
        r == (if key_position(old(data)@, key@) is Some {
            ConfigurationStatus::Accepted
        } else {
            ConfigurationStatus::NotSupported
        }),
{
    if set_variable_value(data, key, value) {
        ConfigurationStatus::Accepted
    } else {
        ConfigurationStatus::NotSupported
    }
}

} // verus!
