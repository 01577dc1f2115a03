use vstd::prelude::*;
use crate::ident::NodeId;
use crate::text::same_text;

verus! {

/// The flag stored under `key`; a later entry for the same key hides earlier ones.
pub open spec fn flag_lookup(s: Seq<(String, bool)>, key: Seq<char>) -> Option<bool>
    decreases s.len(),
{
    if s.len() == 0 {
        None
    } else if s.last().0@ == key {
        Some(s.last().1)
    } else {
        flag_lookup(s.drop_last(), key)
    }
}

/// No key occurs twice.
pub open spec fn flag_keys_unique(s: Seq<(String, bool)>) -> bool {
    forall|i: int, j: int| 0 <= i < j < s.len() ==> (#[trigger] s[i]).0@ != (#[trigger] s[j]).0@
}

proof fn lemma_flag_absent(s: Seq<(String, bool)>, key: Seq<char>)
    requires
        forall|j: int| 0 <= j < s.len() ==> (#[trigger] s[j]).0@ != key,
    ensures
        flag_lookup(s, key) is None,
    decreases s.len(),
{
    if s.len() > 0 {
        assert(s.last() == s[s.len() - 1]);
        lemma_flag_absent(s.drop_last(), key);
    }
}

proof fn lemma_flag_at(s: Seq<(String, bool)>, i: int)
    requires
        flag_keys_unique(s),
        0 <= i < s.len(),
    ensures
        flag_lookup(s, s[i].0@) == Some(s[i].1),
    decreases s.len(),
{
    if i < s.len() - 1 {
        assert(s.last() == s[s.len() - 1]);
        assert(s.drop_last()[i] == s[i]);
        lemma_flag_at(s.drop_last(), i);
    }
}

proof fn lemma_flag_update(s: Seq<(String, bool)>, i: int, e: (String, bool), key: Seq<char>)
    requires
        flag_keys_unique(s),
        0 <= i < s.len(),
        s[i].0@ == e.0@,
    ensures
        flag_lookup(s.update(i, e), key) == (if e.0@ == key {
            Some(e.1)
        } else {
            flag_lookup(s, key)
        }),
        flag_keys_unique(s.update(i, e)),
    decreases s.len(),
{
    let t = s.update(i, e);
    assert forall|a: int, b: int| 0 <= a < b < t.len() implies (#[trigger] t[a]).0@ != (#[trigger] t[b]).0@ by {
        assert(s[a].0@ != s[b].0@);
    }
    if i == s.len() - 1 {
        assert(t.drop_last() =~= s.drop_last());
        if e.0@ != key {
        } else {
        }
    } else {
        assert(t.drop_last() =~= s.drop_last().update(i, e));
        assert(s.last() == s[s.len() - 1]);
        assert(s.last().0@ != e.0@);
        lemma_flag_update(s.drop_last(), i, e, key);
    }
}

/// Find the entry for `key`.
fn flag_position(s: &Vec<(String, bool)>, key: &str) -> (r: Option<usize>)
    ensures
        match r {
            Some(i) => i < s@.len() && s@[i as int].0@ == key@,
            None => forall|j: int| 0 <= j < s@.len() ==> (#[trigger] s@[j]).0@ != key@,
        },
{
    let n = s.len();
    let mut i: usize = 0;
    while i < n
        invariant
            n == s@.len(),
            i <= n,
            forall|j: int| 0 <= j < i ==> (#[trigger] s@[j]).0@ != key@,
        decreases n - i,
    {
        if same_text(s[i].0.as_str(), key) {
            return Some(i);
        }
        i = i + 1;
    }
    None
}

/// Tally state that travels with a frame through the graph: program and
/// preview lights, custom lights by name, and the nodes already visited.
#[derive(Debug, Clone)]
pub struct TallyMetadata {
    pub program_tally: bool,
    pub preview_tally: bool,
    pub custom_tally: Vec<(String, bool)>,
    pub propagation_path: Vec<NodeId>,
    pub should_propagate: bool,
    pub propagation_source: Option<NodeId>,
}

impl TallyMetadata {
    /// Each custom light is named once.
    pub open spec fn wf(&self) -> bool {
        flag_keys_unique(self.custom_tally@)
    }

    /// The custom light named `key`.
    pub open spec fn spec_custom(&self, key: Seq<char>) -> Option<bool> {
        flag_lookup(self.custom_tally@, key)
    }

    /// All lights off, nothing visited, propagation on.
    pub fn new() -> (t: Self)
        ensures
            t.wf(),
            !t.program_tally && !t.preview_tally,
            t.custom_tally@.len() == 0,
            t.propagation_path@.len() == 0,
            t.should_propagate,
            t.propagation_source is None,
    {
        TallyMetadata {
            program_tally: false,
            preview_tally: false,
            custom_tally: Vec::new(),
            propagation_path: Vec::new(),
            should_propagate: true,
            propagation_source: None,
        }
    }

    /// The same state with the program light set to `enabled`.
    pub fn with_program_tally(self, enabled: bool) -> (t: Self)
        ensures
            t == (TallyMetadata { program_tally: enabled, ..self }),
    {
        let mut t = self;
        t.program_tally = enabled;
        t
    }

    /// The same state with the preview light set to `enabled`.
    pub fn with_preview_tally(self, enabled: bool) -> (t: Self)
        ensures
            t == (TallyMetadata { preview_tally: enabled, ..self }),
    {
        let mut t = self;
        t.preview_tally = enabled;
        t
    }

    /// Record that the state passed node `node_id`.
    pub fn add_to_path(&mut self, node_id: NodeId)
        ensures
            final(self).propagation_path@ == old(self).propagation_path@.push(node_id),
            final(self).program_tally == old(self).program_tally,
            final(self).preview_tally == old(self).preview_tally,
            final(self).custom_tally == old(self).custom_tally,
            final(self).should_propagate == old(self).should_propagate,
            final(self).propagation_source == old(self).propagation_source,
    {
        self.propagation_path.push(node_id);
    }

    /// Whether the state already passed node `node_id`.
    pub fn has_visited(&self, node_id: NodeId) -> (b: bool)
        ensures
            b == self.propagation_path@.contains(node_id),
    {
        let n = self.propagation_path.len();
        let mut i: usize = 0;
        while i < n
            invariant
                n == self.propagation_path@.len(),
                i <= n,
                forall|j: int| 0 <= j < i ==> self.propagation_path@[j] != node_id,
            decreases n - i,
        {
            if self.propagation_path[i] == node_id {
                return true;
            }
            i = i + 1;
        }
        false
    }

    /// Merge another state in: each light is on when it is on in either
    /// state, and every custom light of `other` is or-ed into this one's
    /// (absent counts as off).
    pub fn merge_with(&mut self, other: &TallyMetadata)
        requires
            old(self).wf(),
            other.wf(),
        ensures
            final(self).wf(),
            final(self).program_tally == (old(self).program_tally || other.program_tally),
            final(self).preview_tally == (old(self).preview_tally || other.preview_tally),
            forall|k: Seq<char>| #[trigger] final(self).spec_custom(k) == (match other.spec_custom(k) {
                Some(v) => Some(
                    match old(self).spec_custom(k) {
                        Some(c) => c,
                        None => false,
                    } || v,
                ),
                None => old(self).spec_custom(k),
            }),
            final(self).propagation_path == old(self).propagation_path,
            final(self).should_propagate == old(self).should_propagate,
            final(self).propagation_source == old(self).propagation_source,
    {
        self.program_tally = self.program_tally || other.program_tally;
        self.preview_tally = self.preview_tally || other.preview_tally;
        let ghost start = self.custom_tally@;
        let n = other.custom_tally.len();
        let mut i: usize = 0;
        while i < n
            invariant
                n == other.custom_tally@.len(),
                i <= n,
                flag_keys_unique(self.custom_tally@),
                flag_keys_unique(other.custom_tally@),
                forall|k: Seq<char>| #[trigger] flag_lookup(self.custom_tally@, k) == (match flag_lookup(
                    other.custom_tally@.take(i as int),
                    k,
                ) {
                    Some(v) => Some(
                        match flag_lookup(start, k) {
                            Some(c) => c,
                            None => false,
                        } || v,
                    ),
                    None => flag_lookup(start, k),
                }),
                self.program_tally == (old(self).program_tally || other.program_tally),
                self.preview_tally == (old(self).preview_tally || other.preview_tally),
                self.propagation_path == old(self).propagation_path,
                self.should_propagate == old(self).should_propagate,
                self.propagation_source == old(self).propagation_source,
            decreases n - i,
        {
            let key = other.custom_tally[i].0.as_str();
            let value = other.custom_tally[i].1;
            let ghost before = self.custom_tally@;
            proof {
                let o = other.custom_tally@;
                assert(o.take(i + 1).drop_last() =~= o.take(i as int));
                assert(o.take(i + 1).last() == o[i as int]);
                assert forall|j: int| 0 <= j < o.take(i as int).len() implies (#[trigger] o.take(i as int)[j]).0@ != o[i as int].0@ by {
                    assert(o.take(i as int)[j] == o[j]);
                }
                lemma_flag_absent(o.take(i as int), o[i as int].0@);
            }
            match flag_position(&self.custom_tally, key) {
                Some(p) => {
                    proof {
                        lemma_flag_at(before, p as int);
                    }
                    let current = self.custom_tally[p].1;
                    let entry = (key.to_string(), current || value);
                    let ghost e = entry;
                    self.custom_tally.set(p, entry);
                    proof {
                        assert forall|k: Seq<char>| #[trigger] flag_lookup(self.custom_tally@, k) == (if k == key@ {
                            Some(current || value)
                        } else {
                            flag_lookup(before, k)
                        }) by {
                            lemma_flag_update(before, p as int, e, k);
                        }
                        lemma_flag_update(before, p as int, e, key@);
                    }
                },
                None => {
                    proof {
                        lemma_flag_absent(before, key@);
                    }
                    self.custom_tally.push((key.to_string(), value));
                    proof {
                        assert(self.custom_tally@.drop_last() =~= before);
                        assert forall|a: int, b: int| 0 <= a < b < self.custom_tally@.len() implies
                            (#[trigger] self.custom_tally@[a]).0@ != (#[trigger] self.custom_tally@[b]).0@ by {
                            if b == before.len() {
                                assert(before[a].0@ != key@);
                            } else {
                                assert(before[a].0@ != before[b].0@);
                            }
                        }
                    }
                },
            }
            i = i + 1;
        }
        proof {
            assert(other.custom_tally@.take(n as int) =~= other.custom_tally@);
        }
    }
}

impl Default for TallyMetadata {
    /// All lights off, nothing visited, propagation off (the field defaults).
    fn default() -> (t: Self)
        ensures
            !t.program_tally && !t.preview_tally,
            t.custom_tally@.len() == 0,
            t.propagation_path@.len() == 0,
            !t.should_propagate,
            t.propagation_source is None,
    {
        TallyMetadata {
            program_tally: false,
            preview_tally: false,
            custom_tally: Vec::new(),
            propagation_path: Vec::new(),
            should_propagate: false,
            propagation_source: None,
        }
    }
}

} // verus!
