use vstd::prelude::*;
use crate::ident::NodeId;
use crate::text::same_text;
use crate::types::{ConnectionType, NodeType};

verus! {

/// A JSON value of the `serde_json` crate, carried as an opaque parameter value.
#[verifier::external_type_specification]
#[verifier::external_body]
pub struct ExJsonValue(serde_json::Value);

/// A copy of a JSON value, from `serde_json::Value`'s `Clone`, which copies
/// the value node by node: the copy is the same value.
#[verifier::external_body]
fn copy_json(v: &serde_json::Value) -> (r: serde_json::Value)
    ensures
        r == *v,
{
    v.clone()
}

/// The kind of value a node parameter takes.
#[derive(Debug, Clone)]
pub enum ParameterType {
    Float,
    Integer,
    Boolean,
    String,
    Color,
    Vector2,
    Vector3,
    Vector4,
    Enum(Vec<String>),
}

/// A parameter value: integers, flags and texts as plain values, anything
/// else as the JSON value it came as. An integer that fits 64 signed bits is
/// an `Integer`; a larger positive one is `Unsigned`.
#[derive(Debug)]
pub enum ParamValue {
    Integer(i64),
    Unsigned(u64),
    Boolean(bool),
    Text(String),
    Json(serde_json::Value),
}

impl ParamValue {
    /// The integer, if the value is one.
    pub open spec fn spec_as_i64(&self) -> Option<i64> {
        match self {
            ParamValue::Integer(i) => Some(*i),
            _ => None,
        }
    }

    /// The integer as 64 unsigned bits, if the value is a non-negative integer.
    pub open spec fn spec_as_u64(&self) -> Option<u64> {
        match self {
            ParamValue::Integer(i) => if *i >= 0 {
                Some(*i as u64)
            } else {
                None
            },
            ParamValue::Unsigned(u) => Some(*u),
            _ => None,
        }
    }

    /// The flag, if the value is one.
    pub open spec fn spec_as_bool(&self) -> Option<bool> {
        match self {
            ParamValue::Boolean(b) => Some(*b),
            _ => None,
        }
    }

    /// The text, if the value is one.
    pub open spec fn spec_as_str(&self) -> Option<Seq<char>> {
        match self {
            ParamValue::Text(s) => Some(s@),
            _ => None,
        }
    }

    /// The value seen through its text: equal values and equal texts.
    pub open spec fn same(&self, other: ParamValue) -> bool {
        match (self, other) {
            (ParamValue::Text(a), ParamValue::Text(b)) => a@ == b@,
            _ => *self == other,
        }
    }

    /// A copy of the value.
    pub fn duplicate(&self) -> (r: Self)
        ensures
            r.same(*self),
    {
        match self {
            ParamValue::Integer(i) => ParamValue::Integer(*i),
            ParamValue::Unsigned(u) => ParamValue::Unsigned(*u),
            ParamValue::Boolean(b) => ParamValue::Boolean(*b),
            ParamValue::Text(s) => ParamValue::Text(s.clone()),
            ParamValue::Json(v) => ParamValue::Json(copy_json(v)),
        }
    }

    /// The integer, if the value is one.
    pub fn as_i64(&self) -> (r: Option<i64>)
        ensures
            r == self.spec_as_i64(),
    {
        match self {
            ParamValue::Integer(i) => Some(*i),
            _ => None,
        }
    }

    /// The integer as 64 unsigned bits, if the value is a non-negative integer.
    pub fn as_u64(&self) -> (r: Option<u64>)
        ensures
            r == self.spec_as_u64(),
    {
        match self {
            ParamValue::Integer(i) => if *i >= 0 {
                Some(*i as u64)
            } else {
                None
            },
            ParamValue::Unsigned(u) => Some(*u),
            _ => None,
        }
    }

    /// The text, if the value is one.
    pub fn as_str(&self) -> (r: Option<&str>)
        ensures
            match r {
                Some(s) => self.spec_as_str() == Some(s@),
                None => self.spec_as_str() is None,
            },
    {
        match self {
            ParamValue::Text(s) => Some(s.as_str()),
            _ => None,
        }
    }

    /// The flag, if the value is one.
    pub fn as_bool(&self) -> (r: Option<bool>)
        ensures
            r == self.spec_as_bool(),
    {
        match self {
            ParamValue::Boolean(b) => Some(*b),
            _ => None,
        }
    }
}

/// Description of one node parameter.
#[derive(Debug)]
pub struct ParameterDefinition {
    pub name: String,
    pub parameter_type: ParameterType,
    pub default_value: ParamValue,
    pub min_value: Option<ParamValue>,
    pub max_value: Option<ParamValue>,
    pub description: String,
}

/// What a node is: identity, kind, the connections it takes and gives, and
/// its parameters by key.
#[derive(Debug)]
pub struct NodeProperties {
    pub id: NodeId,
    pub name: String,
    pub node_type: NodeType,
    pub input_types: Vec<ConnectionType>,
    pub output_types: Vec<ConnectionType>,
    pub parameters: Vec<(String, ParameterDefinition)>,
}

/// The value stored under `key` in a parameter list; a later entry for the
/// same key hides earlier ones.
pub open spec fn param_lookup(s: Seq<(String, ParamValue)>, key: Seq<char>) -> Option<ParamValue>
    decreases s.len(),
{
    if s.len() == 0 {
        None
    } else if s.last().0@ == key {
        Some(s.last().1)
    } else {
        param_lookup(s.drop_last(), key)
    }
}

/// Parameter values of a node, by key.
#[derive(Debug)]
pub struct NodeConfig {
    pub parameters: Vec<(String, ParamValue)>,
}

proof fn lemma_lookup_absent(s: Seq<(String, ParamValue)>, key: Seq<char>)
    requires
        forall|j: int| 0 <= j < s.len() ==> (#[trigger] s[j]).0@ != key,
    ensures
        param_lookup(s, key) is None,
    decreases s.len(),
{
    if s.len() > 0 {
        assert(s.last() == s[s.len() - 1]);
        lemma_lookup_absent(s.drop_last(), key);
    }
}

proof fn lemma_lookup_push(s: Seq<(String, ParamValue)>, e: (String, ParamValue), key: Seq<char>)
    ensures
        param_lookup(s.push(e), key) == (if e.0@ == key {
            Some(e.1)
        } else {
            param_lookup(s, key)
        }),
{
    assert(s.push(e).drop_last() =~= s);
}

proof fn lemma_lookup_set(s: Seq<(String, ParamValue)>, i: int, e: (String, ParamValue), key: Seq<char>)
    requires
        0 <= i < s.len(),
        s[i].0@ == e.0@,
        forall|j: int| i < j < s.len() ==> (#[trigger] s[j]).0@ != e.0@,
    ensures
        param_lookup(s.update(i, e), key) == (if e.0@ == key {
            Some(e.1)
        } else {
            param_lookup(s, key)
        }),
    decreases s.len(),
{
    if i == s.len() - 1 {
        assert(s.update(i, e).drop_last() =~= s.drop_last());
    } else {
        assert(s.update(i, e).drop_last() =~= s.drop_last().update(i, e));
        assert(s.last() == s[s.len() - 1]);
        lemma_lookup_set(s.drop_last(), i, e, key);
    }
}

impl NodeConfig {
    /// No parameters.
    pub fn new() -> (c: Self)
        ensures
            c.parameters@.len() == 0,
    {
        NodeConfig { parameters: Vec::new() }
    }

    /// The value stored under `key`.
    pub open spec fn spec_get(&self, key: Seq<char>) -> Option<ParamValue> {
        param_lookup(self.parameters@, key)
    }

    /// Where the entry for `key` stands: the last one with that key.
    fn position(&self, key: &str) -> (r: Option<usize>)
        ensures
            match r {
                Some(i) => i < self.parameters@.len() && self.parameters@[i as int].0@ == key@
                    && forall|j: int| i < j < self.parameters@.len() ==> (#[trigger] self.parameters@[j]).0@ != key@,
                None => forall|j: int| 0 <= j < self.parameters@.len() ==> (#[trigger] self.parameters@[j]).0@ != key@,
            },
    {
        let n = self.parameters.len();
        let mut i: usize = n;
        while i > 0
            invariant
                n == self.parameters@.len(),
                i <= n,
                forall|j: int| i <= j < n ==> (#[trigger] self.parameters@[j]).0@ != key@,
            decreases i,
        {
            if same_text(self.parameters[i - 1].0.as_str(), key) {
                return Some(i - 1);
            }
            i = i - 1;
        }
        None
    }

    /// The value stored under `key`, if any.
    pub fn get(&self, key: &str) -> (r: Option<&ParamValue>)
        ensures
            match r {
                Some(v) => self.spec_get(key@) == Some(*v),
                None => self.spec_get(key@) is None,
            },
    {
        match self.position(key) {
            Some(i) => {
                proof {
                    lemma_lookup_tail(self.parameters@, i as int, key@);
                }
                Some(&self.parameters[i].1)
            },
            None => {
                proof {
                    lemma_lookup_absent(self.parameters@, key@);
                }
                None
            },
        }
    }

    /// Whether a value is stored under `key`.
    pub fn contains_key(&self, key: &str) -> (b: bool)
        ensures
            b == self.spec_get(key@) is Some,
    {
        match self.get(key) {
            Some(_) => true,
            None => false,
        }
    }

    /// Store `value` under `key`, replacing any value stored there.
    pub fn insert(&mut self, key: &str, value: ParamValue)
        ensures
            forall|k: Seq<char>| #[trigger] final(self).spec_get(k) == (if k == key@ {
                Some(value)
            } else {
                old(self).spec_get(k)
            }),
    {
        let entry = (key.to_string(), value);
        let ghost e = entry;
        match self.position(key) {
            Some(i) => {
                let ghost before = self.parameters@;
                self.parameters.set(i, entry);
                proof {
                    assert(self.parameters@ == before.update(i as int, e));
                    assert forall|k: Seq<char>| #[trigger] param_lookup(self.parameters@, k) == (if k == key@ {
                        Some(value)
                    } else {
                        param_lookup(before, k)
                    }) by {
                        lemma_lookup_set(before, i as int, e, k);
                    }
                }
            },
            None => {
                let ghost before = self.parameters@;
                self.parameters.push(entry);
                proof {
                    assert forall|k: Seq<char>| #[trigger] param_lookup(self.parameters@, k) == (if k == key@ {
                        Some(value)
                    } else {
                        param_lookup(before, k)
                    }) by {
                        lemma_lookup_push(before, e, k);
                    }
                }
            },
        }
    }
}

proof fn lemma_lookup_tail(s: Seq<(String, ParamValue)>, i: int, key: Seq<char>)
    requires
        0 <= i < s.len(),
        s[i].0@ == key,
        forall|j: int| i < j < s.len() ==> (#[trigger] s[j]).0@ != key,
    ensures
        param_lookup(s, key) == Some(s[i].1),
    decreases s.len(),
{
    if i < s.len() - 1 {
        assert(s.last() == s[s.len() - 1]);
        assert(s.drop_last()[i] == s[i]);
        lemma_lookup_tail(s.drop_last(), i, key);
    }
}

/// The definition stored under `key` in a parameter table; a later entry
/// for the same key hides earlier ones.
pub open spec fn def_lookup(p: Seq<(String, ParameterDefinition)>, key: Seq<char>) -> Option<ParameterDefinition>
    decreases p.len(),
{
    if p.len() == 0 {
        None
    } else if p.last().0@ == key {
        Some(p.last().1)
    } else {
        def_lookup(p.drop_last(), key)
    }
}

/// No key occurs twice in a parameter table.
pub open spec fn keys_unique(p: Seq<(String, ParameterDefinition)>) -> bool {
    forall|i: int, j: int| 0 <= i < j < p.len() ==> (#[trigger] p[i]).0@ != (#[trigger] p[j]).0@
}

/// `after` is `before` with the default of every table parameter it lacks:
/// values already set stay, missing table parameters get their default,
/// other keys stay unset.
pub open spec fn defaults_applied(before: NodeConfig, after: NodeConfig, p: Seq<(String, ParameterDefinition)>) -> bool {
    forall|k: Seq<char>|
        #![trigger after.spec_get(k)]
        {
            &&& before.spec_get(k) is Some ==> after.spec_get(k) == before.spec_get(k)
            &&& (before.spec_get(k) is None && def_lookup(p, k) is Some) ==> (after.spec_get(k) matches Some(v)
                && v.same(def_lookup(p, k)->0.default_value))
            &&& (before.spec_get(k) is None && def_lookup(p, k) is None) ==> after.spec_get(k) is None
        }
}

proof fn lemma_def_lookup_take(p: Seq<(String, ParameterDefinition)>, i: int, k: Seq<char>)
    requires
        0 <= i < p.len(),
    ensures
        def_lookup(p.take(i + 1), k) == (if p[i].0@ == k {
            Some(p[i].1)
        } else {
            def_lookup(p.take(i), k)
        }),
{
    assert(p.take(i + 1).drop_last() =~= p.take(i));
}

proof fn lemma_def_lookup_absent(p: Seq<(String, ParameterDefinition)>, k: Seq<char>)
    requires
        forall|j: int| 0 <= j < p.len() ==> (#[trigger] p[j]).0@ != k,
    ensures
        def_lookup(p, k) is None,
    decreases p.len(),
{
    if p.len() > 0 {
        assert(p.last() == p[p.len() - 1]);
        lemma_def_lookup_absent(p.drop_last(), k);
    }
}

/// Give `config` the default of every parameter of `params` it lacks.
pub fn apply_parameter_defaults(config: &mut NodeConfig, params: &Vec<(String, ParameterDefinition)>)
    requires
        keys_unique(params@),
    ensures
        defaults_applied(*old(config), *final(config), params@),
{
    let ghost before = *config;
    let n = params.len();
    let mut i: usize = 0;
    proof {
        assert forall|k: Seq<char>| #![trigger config.spec_get(k)] def_lookup(params@.take(0), k) is None by {
            assert(params@.take(0).len() == 0);
        }
    }
    while i < n
        invariant
            n == params@.len(),
            i <= n,
            keys_unique(params@),
            defaults_applied(before, *config, params@.take(i as int)),
        decreases n - i,
    {
        let key = params[i].0.as_str();
        let ghost cur = *config;
        if !config.contains_key(key) {
            let v = params[i].1.default_value.duplicate();
            config.insert(key, v);
        }
        proof {
            assert forall|k: Seq<char>| #![trigger config.spec_get(k)] {
                &&& before.spec_get(k) is Some ==> config.spec_get(k) == before.spec_get(k)
                &&& (before.spec_get(k) is None && def_lookup(params@.take(i + 1), k) is Some) ==> (config.spec_get(k) matches Some(v)
                    && v.same(def_lookup(params@.take(i + 1), k)->0.default_value))
                &&& (before.spec_get(k) is None && def_lookup(params@.take(i + 1), k) is None) ==> config.spec_get(k) is None
            } by {
                lemma_def_lookup_take(params@, i as int, k);
                assert(cur.spec_get(k) == cur.spec_get(k));
                if k == params@[i as int].0@ {
                    assert forall|j: int| 0 <= j < params@.take(i as int).len() implies
                        (#[trigger] params@.take(i as int)[j]).0@ != k by {
                        assert(params@.take(i as int)[j] == params@[j]);
                    }
                    lemma_def_lookup_absent(params@.take(i as int), k);
                }
            }
        }
        i = i + 1;
    }
    proof {
        assert(params@.take(n as int) =~= params@);
    }
}

} // verus!
