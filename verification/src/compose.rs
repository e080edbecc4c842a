//! A compose file together with its line-mapping index.
//!
//! The structural parser discards source positions, so the index is rebuilt
//! by an independent line-oriented scan of the raw text. The scan is an
//! approximation: multi-line scalars, flow-style mappings and duplicate
//! sibling keys under list items are not perfectly disambiguated.
pub mod spec;

use vstd::prelude::*;

use crate::compose::spec::ComposeSpec;
use crate::text::{
    count_dspace, first_index, join_seq, split_seq, str_count_dspace, str_eq, str_find, str_join,
    str_split, str_trim, str_trim_colons, str_trim_dash, trim, trim_colons, trim_dash,
};

verus! {

/// A mapping from dotted/bracketed key paths to zero-based source lines,
/// rebuilt once per manifest from the raw text.
pub struct LineIndex {
    entries: Vec<(String, usize)>,
}

/// The map described by an association list; a later entry for the same key
/// wins.
pub open spec fn assoc_map(s: Seq<(String, usize)>) -> Map<Seq<char>, int>
    decreases s.len(),
{
    if s.len() == 0 {
        Map::empty()
    } else {
        assoc_map(s.drop_last()).insert(s.last().0@, s.last().1 as int)
    }
}

/// No two entries share a key.
pub open spec fn distinct_keys(s: Seq<(String, usize)>) -> bool {
    forall|i: int, j: int| 0 <= i < j < s.len() ==> s[i].0@ != s[j].0@
}

impl View for LineIndex {
    type V = Map<Seq<char>, int>;

    closed spec fn view(&self) -> Map<Seq<char>, int> {
        assoc_map(self.entries@)
    }
}

proof fn lemma_assoc_contains(s: Seq<(String, usize)>, k: Seq<char>)
    ensures
        assoc_map(s).contains_key(k) <==> exists|i: int| 0 <= i < s.len() && s[i].0@ == k,
    decreases s.len(),
{
    if s.len() > 0 {
        lemma_assoc_contains(s.drop_last(), k);
        if assoc_map(s).contains_key(k) {
            if s.last().0@ != k {
                let i = choose|i: int| 0 <= i < s.drop_last().len() && s.drop_last()[i].0@ == k;
                assert(s[i].0@ == k);
            } else {
                assert(s[s.len() - 1].0@ == k);
            }
        } else {
            assert(forall|i: int| 0 <= i < s.drop_last().len() ==> s.drop_last()[i].0@ != k);
            assert forall|i: int| 0 <= i < s.len() implies s[i].0@ != k by {
                if i < s.len() - 1 {
                    assert(s.drop_last()[i].0@ != k);
                }
            }
        }
    }
}

proof fn lemma_assoc_get(s: Seq<(String, usize)>, i: int)
    requires
        distinct_keys(s),
        0 <= i < s.len(),
    ensures
        assoc_map(s).contains_key(s[i].0@),
        assoc_map(s)[s[i].0@] == s[i].1 as int,
    decreases s.len(),
{
    if i == s.len() - 1 {
    } else {
        assert(distinct_keys(s.drop_last())) by {
            assert(forall|x: int, y: int|
                0 <= x < y < s.drop_last().len() ==> s.drop_last()[x].0@ != s.drop_last()[y].0@);
        }
        assert(s.drop_last()[i] == s[i]);
        lemma_assoc_get(s.drop_last(), i);
        assert(s[i].0@ != s.last().0@);
    }
}

proof fn lemma_assoc_dom_len(s: Seq<(String, usize)>)
    requires
        distinct_keys(s),
    ensures
        assoc_map(s).dom().finite(),
        assoc_map(s).dom().len() == s.len(),
    decreases s.len(),
{
    if s.len() > 0 {
        assert(distinct_keys(s.drop_last())) by {
            assert(forall|x: int, y: int|
                0 <= x < y < s.drop_last().len() ==> s.drop_last()[x].0@ != s.drop_last()[y].0@);
        }
        lemma_assoc_dom_len(s.drop_last());
        lemma_assoc_contains(s.drop_last(), s.last().0@);
        assert(!assoc_map(s.drop_last()).contains_key(s.last().0@)) by {
            if exists|i: int|
                0 <= i < s.drop_last().len() && s.drop_last()[i].0@ == s.last().0@ {
                let i = choose|i: int|
                    0 <= i < s.drop_last().len() && s.drop_last()[i].0@ == s.last().0@;
                assert(s[i].0@ == s[s.len() - 1].0@);
            }
        }
        assert(assoc_map(s).dom() =~= assoc_map(s.drop_last()).dom().insert(s.last().0@));
    } else {
        assert(assoc_map(s).dom() =~= Set::<Seq<char>>::empty());
    }
}

impl LineIndex {
    /// The index is well formed: no two entries share a key.
    pub closed spec fn wf(&self) -> bool {
        distinct_keys(self.entries@)
    }

    /// An empty index.
    pub fn new() -> (r: LineIndex)
        ensures
            r.wf(),
            r@ == Map::<Seq<char>, int>::empty(),
    {
        let r = LineIndex { entries: Vec::new() };
        proof {
            assert(r@ =~= Map::<Seq<char>, int>::empty());
        }
        r
    }

    /// Record `key` at `line`, replacing any earlier entry for `key`.
    pub fn insert(&mut self, key: String, line: usize)
        requires
            old(self).wf(),
        ensures
            final(self).wf(),
            final(self)@ == old(self)@.insert(key@, line as int),
    {
        let n = self.entries.len();
        let mut i: usize = 0;
        while i < n
            invariant
                n == self.entries@.len(),
                0 <= i <= n,
                self.entries@ == old(self).entries@,
                distinct_keys(self.entries@),
                forall|j: int| 0 <= j < i ==> self.entries@[j].0@ != key@,
            decreases n - i,
        {
            if str_eq(self.entries[i].0.as_str(), key.as_str()) {
                let ghost before = self.entries@;
                let e = &mut self.entries[i];
                *e = (key, line);
                proof {
                    assert(self.entries@ == before.update(i as int, self.entries@[i as int]));
                    assert(self.entries@[i as int].0@ == key@);
                    assert(self.entries@[i as int].1 == line);
                    lemma_assoc_update(before, i as int, self.entries@[i as int]);
                    assert(assoc_map(self.entries@) =~= assoc_map(before).insert(
                        key@,
                        line as int,
                    ));
                    assert(distinct_keys(self.entries@)) by {
                        assert(forall|j: int|
                            0 <= j < self.entries@.len() && j != i ==> self.entries@[j]
                                == before[j]);
                    }
                }
                return ;
            }
            i += 1;
        }
        let ghost before = self.entries@;
        self.entries.push((key, line));
        proof {
            assert(self.entries@.drop_last() =~= before);
            assert(self.entries@.last().0@ == key@);
            assert(self.entries@.last().1 == line);
            assert(assoc_map(self.entries@) =~= assoc_map(before).insert(key@, line as int));
            lemma_assoc_contains(before, key@);
            assert(distinct_keys(self.entries@)) by {
                assert(forall|j: int| 0 <= j < before.len() ==> self.entries@[j] == before[j]);
            }
        }
    }

    /// The line recorded for `key`, if any.
    pub fn get(&self, key: &str) -> (r: Option<usize>)
        requires
            self.wf(),
        ensures
            match r {
                Some(l) => self@.contains_key(key@) && self@[key@] == l as int,
                None => !self@.contains_key(key@),
            },
    {
        let n = self.entries.len();
        let mut i: usize = 0;
        while i < n
            invariant
                n == self.entries@.len(),
                0 <= i <= n,
                distinct_keys(self.entries@),
                forall|j: int| 0 <= j < i ==> self.entries@[j].0@ != key@,
            decreases n - i,
        {
            if str_eq(self.entries[i].0.as_str(), key) {
                proof {
                    lemma_assoc_get(self.entries@, i as int);
                }
                return Some(self.entries[i].1);
            }
            i += 1;
        }
        proof {
            lemma_assoc_contains(self.entries@, key@);
        }
        None
    }

    /// Number of keys in the index.
    pub fn len(&self) -> (r: usize)
        requires
            self.wf(),
        ensures
            r == self@.dom().len(),
    {
        proof {
            lemma_assoc_dom_len(self.entries@);
        }
        self.entries.len()
    }
}

proof fn lemma_assoc_update(s: Seq<(String, usize)>, i: int, e: (String, usize))
    requires
        distinct_keys(s),
        0 <= i < s.len(),
        s[i].0@ == e.0@,
    ensures
        assoc_map(s.update(i, e)) == assoc_map(s).insert(e.0@, e.1 as int),
    decreases s.len(),
{
    if i == s.len() - 1 {
        assert(s.update(i, e).drop_last() =~= s.drop_last());
        assert(s.update(i, e).last() == e);
        assert(assoc_map(s.update(i, e)) =~= assoc_map(s).insert(e.0@, e.1 as int));
    } else {
        assert(distinct_keys(s.drop_last())) by {
            assert(forall|x: int, y: int|
                0 <= x < y < s.drop_last().len() ==> s.drop_last()[x].0@ != s.drop_last()[y].0@);
        }
        assert(s.drop_last()[i] == s[i]);
        lemma_assoc_update(s.drop_last(), i, e);
        assert(s.update(i, e).drop_last() =~= s.drop_last().update(i, e));
        assert(s.update(i, e).last() == s.last());
        assert(s[i].0@ != s.last().0@);
        assert(assoc_map(s.update(i, e)) == assoc_map(s.drop_last()).insert(
            e.0@,
            e.1 as int,
        ).insert(s.last().0@, s.last().1 as int));
        assert(assoc_map(s.update(i, e)) =~= assoc_map(s).insert(e.0@, e.1 as int));
    }
}

/// State of the line scan: the enclosing key names, the tracked indentation
/// depth, and the mappings recorded so far.
pub struct ScanState {
    pub stack: Seq<Seq<char>>,
    pub depth: int,
    pub map: Map<Seq<char>, int>,
}

/// The scan state before any line is seen.
pub open spec fn scan_init() -> ScanState {
    ScanState { stack: Seq::empty(), depth: 0, map: Map::empty() }
}

/// The stack after popping up to `n` entries.
pub open spec fn pop_n(stack: Seq<Seq<char>>, n: int) -> Seq<Seq<char>>
    decreases n,
{
    if n <= 0 || stack.len() == 0 {
        stack
    } else {
        pop_n(stack.drop_last(), n - 1)
    }
}

/// The full key path for `key` under the scope `stack`.
pub open spec fn scoped_key(stack: Seq<Seq<char>>, key: Seq<char>) -> Seq<char> {
    if stack.len() > 0 {
        join_seq(stack, '.') + "."@ + key
    } else {
        key
    }
}

/// One step of the scan over line `line` with number `n`.
///
/// Blank and comment lines are skipped. A decrease in indentation pops the
/// scope stack once per step of decrease. A line ending in `:` records its
/// scoped key and opens a scope; a line beginning with `-` records the
/// scope with the item text bracketed; a `key: value` line records its
/// scoped key; anything else records nothing.
pub open spec fn scan_line(st: ScanState, line: Seq<char>, n: int) -> ScanState {
    let ind = count_dspace(line) as int;
    let t = trim(line);
    if t.len() == 0 || t[0] == '#' {
        st
    } else {
        let stack1 = if st.depth > ind {
            pop_n(st.stack, st.depth - ind)
        } else {
            st.stack
        };
        let depth1 = if st.depth > ind {
            ind
        } else {
            st.depth
        };
        if t.last() == ':' {
            let key = trim_colons(t);
            let full = scoped_key(stack1, key);
            ScanState { stack: stack1.push(key), depth: ind, map: st.map.insert(full, n) }
        } else if t[0] == '-' {
            let full = join_seq(stack1, '.') + "["@ + trim_dash(t) + "]"@;
            ScanState { stack: stack1, depth: ind, map: st.map.insert(full, n) }
        } else if first_index(t, ':') >= 0 {
            let key = t.take(first_index(t, ':'));
            let full = scoped_key(stack1, key);
            ScanState { stack: stack1, depth: ind, map: st.map.insert(full, n) }
        } else {
            ScanState { stack: stack1, depth: depth1, map: st.map }
        }
    }
}

/// The scan folded over a suffix of the lines, the first of which has
/// number `n`.
pub open spec fn scan_from(lines: Seq<Seq<char>>, n: int, st: ScanState) -> ScanState
    decreases lines.len(),
{
    if lines.len() == 0 {
        st
    } else {
        scan_from(lines.skip(1), n + 1, scan_line(st, lines[0], n))
    }
}

/// The line index recovered from raw manifest text.
pub open spec fn line_index_map(data: Seq<char>) -> Map<Seq<char>, int> {
    scan_from(split_seq(data, '\n'), 0, scan_init()).map
}

/// The line recorded for a key path, if any.
pub open spec fn lookup(m: Map<Seq<char>, int>, k: Seq<char>) -> Option<int> {
    if m.contains_key(k) {
        Some(m[k])
    } else {
        None
    }
}

/// One compose manifest: where it came from, its parsed document, and its
/// line-mapping index.
pub struct ComposeFile {
    /// Path to the file.
    pub path: String,
    /// Parsed compose document.
    pub compose: ComposeSpec,
    /// Key line mappings.
    pub mappings: LineIndex,
}

impl ComposeFile {
    /// Generate mappings for the compose file keys, so a rule violation can
    /// point to a specific line of the file. Never fails: on text the scan
    /// cannot follow it records what it could.
    pub fn mappings(data: &str) -> (r: LineIndex)
        ensures
            r.wf(),
            r@ == line_index_map(data@),
    {
        let lines = str_split(data, '\n');
        let n = lines.len();
        let mut idx = LineIndex::new();
        let mut stack: Vec<String> = Vec::new();
        let mut depth: usize = 0;
        let mut i: usize = 0;
        let ghost all: Seq<Seq<char>> = lines.deep_view();
        proof {
            assert(all.skip(0) =~= all);
            assert(stack.deep_view() =~= scan_init().stack);
            assert(idx@ =~= scan_init().map);
        }
        while i < n
            invariant
                n == lines@.len(),
                all == lines.deep_view(),
                all.len() == n,
                0 <= i <= n,
                idx.wf(),
                scan_from(all, 0, scan_init()) == scan_from(
                    all.skip(i as int),
                    i as int,
                    ScanState { stack: stack.deep_view(), depth: depth as int, map: idx@ },
                ),
            decreases n - i,
        {
            let ghost st = ScanState {
                stack: stack.deep_view(),
                depth: depth as int,
                map: idx@,
            };
            proof {
                assert(all.skip(i as int)[0] == all[i as int]);
                assert(all.skip(i as int).skip(1) =~= all.skip(i + 1));
                assert(scan_from(all.skip(i as int), i as int, st) == scan_from(
                    all.skip(i + 1),
                    i + 1,
                    scan_line(st, all[i as int], i as int),
                ));
                assert(all[i as int] == lines@[i as int]@);
            }
            let line: &String = &lines[i];
            let ind = str_count_dspace(line.as_str());
            let t = str_trim(line.as_str());
            let tlen = t.unicode_len();
            let ghost target = scan_line(st, all[i as int], i as int);
            if tlen == 0 || t.get_char(0) == '#' {
                proof {
                    assert(target == st);
                }
                i += 1;
                continue ;
            }
            if depth > ind {
                let mut d = depth - ind;
                proof {
                    assert(pop_n(st.stack, st.depth - ind) == pop_n(
                        stack.deep_view(),
                        d as int,
                    ));
                }
                let ghost stack1 = pop_n(st.stack, st.depth - ind);
                while d > 0
                    invariant
                        stack1 == pop_n(stack.deep_view(), d as int),
                        d >= 0,
                    decreases d,
                {
                    if stack.len() > 0 {
                        let ghost before = stack.deep_view();
                        stack.pop();
                        proof {
                            assert(stack.deep_view() =~= before.drop_last());
                        }
                    }
                    d -= 1;
                }
                proof {
                    assert(stack1 == stack.deep_view());
                }
                depth = ind;
            }
            proof {
                let stack1 = if st.depth > ind as int {
                    pop_n(st.stack, st.depth - ind as int)
                } else {
                    st.stack
                };
                assert(stack.deep_view() == stack1);
            }
            if tlen > 0 && t.get_char(tlen - 1) == ':' {
                let key = str_trim_colons(t).to_owned();
                let full: String;
                if stack.len() > 0 {
                    let mut f = str_join(&stack, '.');
                    f.append(".");
                    f.append(key.as_str());
                    full = f;
                } else {
                    full = key.clone();
                }
                idx.insert(full, i);
                let ghost before = stack.deep_view();
                stack.push(key);
                proof {
                    assert(stack.deep_view() =~= before.push(trim_colons(trim(
                        all[i as int],
                    ))));
                }
                depth = ind;
            } else if t.get_char(0) == '-' {
                let mut f = str_join(&stack, '.');
                f.append("[");
                f.append(str_trim_dash(t));
                f.append("]");
                idx.insert(f, i);
                depth = ind;
            } else {
                match str_find(t, ':') {
                    Some(ci) => {
                        proof {
                            crate::text::lemma_first_index(t@, ':');
                        }
                        let key = t.substring_char(0, ci);
                        proof {
                            assert(key@ =~= trim(all[i as int]).take(first_index(
                                trim(all[i as int]),
                                ':',
                            )));
                        }
                        let full: String;
                        if stack.len() > 0 {
                            let mut f = str_join(&stack, '.');
                            f.append(".");
                            f.append(key);
                            full = f;
                        } else {
                            full = key.to_owned();
                        }
                        idx.insert(full, i);
                        depth = ind;
                    },
                    None => {},
                }
            }
            proof {
                assert(stack.deep_view() == target.stack);
                assert(depth as int == target.depth);
                assert(idx@ == target.map);
            }
            i += 1;
        }
        proof {
            assert(all.skip(n as int) =~= Seq::<Seq<char>>::empty());
        }
        idx
    }
}

} // verus!
