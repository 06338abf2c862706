//! Processors: raw data in, typed collection out.
//!
//! The contract every processor meets is [`RawConfigProcessor`]. The two
//! line-oriented processors here turn a text payload into a map or a set:
//! the payload is split into lines (a trailing `\r` of a newline-terminated
//! line is dropped, as a byte reader would), each line goes through the
//! user's parse function, and the parsed entries are collected with the
//! usual map semantics — one entry per key, the last parsed value winning.

use vstd::prelude::*;

use std::marker::PhantomData;
use std::sync::Arc;

use vstd::laws_eq::obeys_concrete_eq;
use vstd::std_specs::cmp::PartialEqSpec;
use vstd::string::StrSliceExecFns;

use crate::collections::{
    distinct_items, lemma_first_key_index_at, lemma_map_find_push, lemma_map_find_skip_prefix,
    lemma_map_find_update_same_key, map_find, map_put, set_put, unique_keys,
};
use crate::util::Error;

verus! {

/// Turns one raw payload `S` into the typed collection `T` served to
/// readers. A pure function of the payload, with no side effects expected.
///
/// `good` names the well-formedness this processor guarantees of every value
/// it produces; the engine proves it of every snapshot it publishes, so
/// readers get it back with each snapshot they observe.
pub trait RawConfigProcessor<S, T> {
    spec fn good(&self, v: &T) -> bool;

    fn process(&self, raw: S) -> (r: Result<T, Error>)
        ensures
            r matches Ok(v) ==> self.good(&v),
    ;
}

/// The index of the first newline in `s`, or `s.len()` if there is none.
pub open spec fn first_newline(s: Seq<char>) -> nat
    decreases s.len(),
{
    if s.len() == 0 {
        0
    } else if s[0] == '\n' {
        0
    } else {
        1 + first_newline(s.drop_first())
    }
}

/// A line as a byte reader would report it: without a trailing `\r` left
/// over from a `\r\n` line ending.
pub open spec fn strip_cr(line: Seq<char>) -> Seq<char> {
    if line.len() > 0 && line.last() == '\r' {
        line.drop_last()
    } else {
        line
    }
}

/// The lines of `s`: segments separated by `\n`, each newline-terminated
/// segment with a trailing `\r` dropped; a final segment at the end of the
/// text (not newline-terminated) is a line as it stands, and a trailing
/// newline does not open an empty final line.
pub open spec fn split_lines_spec(s: Seq<char>) -> Seq<Seq<char>>
    decreases s.len(),
{
    if s.len() == 0 {
        Seq::empty()
    } else {
        let i = first_newline(s) as int;
        if i < s.len() {
            seq![strip_cr(s.subrange(0, i))] + split_lines_spec(s.subrange(i + 1, s.len() as int))
        } else {
            seq![s]
        }
    }
}

/// `first_newline` is exactly the position of the first newline.
proof fn lemma_first_newline_at(s: Seq<char>, j: int)
    requires
        0 <= j <= s.len(),
        forall|k: int| 0 <= k < j ==> s[k] != '\n',
        j < s.len() ==> s[j] == '\n',
        j == s.len() ==> forall|k: int| 0 <= k < s.len() ==> s[k] != '\n',
    ensures
        first_newline(s) == j,
    decreases j,
{
    if s.len() == 0 {
    } else if j == 0 {
    } else {
        lemma_first_newline_at(s.drop_first(), j - 1);
    }
}

/// Splits a text into its lines. The result is exactly
/// [`split_lines_spec`] of the text.
pub fn split_lines(raw: &str) -> (r: Vec<String>)
    ensures
        r.deep_view() == split_lines_spec(raw@),
{
    let n = raw.unicode_len();
    let mut out: Vec<String> = Vec::new();
    let mut start: usize = 0;
    proof {
        assert(raw@.subrange(0, n as int) =~= raw@);
    }
    while start < n
        invariant
            start <= n,
            n == raw@.len(),
            split_lines_spec(raw@) == out.deep_view() + split_lines_spec(
                raw@.subrange(start as int, n as int),
            ),
        decreases n - start,
    {
        let ghost out0 = out.deep_view();
        let ghost seg_all = raw@.subrange(start as int, n as int);
        let mut end: usize = start;
        while end < n && raw.get_char(end) != '\n'
            invariant
                start <= end <= n,
                n == raw@.len(),
                forall|j: int| start <= j < end ==> raw@[j] != '\n',
            decreases n - end,
        {
            end += 1;
        }
        proof {
            assert(forall|k: int|
                0 <= k < end - start ==> seg_all[k] == raw@[start + k] && seg_all[k] != '\n');
            if end < n {
                assert(seg_all[end - start] == raw@[end as int]);
                lemma_first_newline_at(seg_all, end - start);
            } else {
                lemma_first_newline_at(seg_all, seg_all.len() as int);
            }
        }
        if end < n {
            let line = if end > start && raw.get_char(end - 1) == '\r' {
                raw.substring_char(start, end - 1)
            } else {
                raw.substring_char(start, end)
            };
            let owned = line.to_owned();
            proof {
                let seg = raw@.subrange(start as int, end as int);
                assert(seg =~= seg_all.subrange(0, end - start));
                if end > start && raw@[end - 1] == '\r' {
                    assert(owned@ =~= strip_cr(seg));
                } else {
                    assert(owned@ =~= strip_cr(seg));
                }
            }
            out.push(owned);
            proof {
                assert(seg_all.subrange(end - start + 1, seg_all.len() as int) =~= raw@.subrange(
                    end + 1,
                    n as int,
                ));
                assert(out.deep_view() =~= out0.push(owned@));
                assert(out.deep_view() + split_lines_spec(raw@.subrange(end + 1, n as int)) =~= (
                out0 + split_lines_spec(seg_all)));
            }
            start = end + 1;
        } else {
            let line = raw.substring_char(start, n);
            let owned = line.to_owned();
            proof {
                assert(owned@ =~= seg_all);
                assert(split_lines_spec(seg_all) =~= seq![seg_all]);
            }
            out.push(owned);
            proof {
                assert(raw@.subrange(n as int, n as int) =~= Seq::<char>::empty());
                assert(out.deep_view() =~= out0.push(owned@));
                assert(out.deep_view() + split_lines_spec(raw@.subrange(n as int, n as int)) =~= (
                out0 + split_lines_spec(seg_all)));
            }
            start = n;
        }
    }
    proof {
        assert(raw@.subrange(start as int, n as int) =~= Seq::<char>::empty());
        assert(out.deep_view() + split_lines_spec(Seq::<char>::empty()) =~= out.deep_view());
    }
    out
}

/// Map insertion over an entry vector: replaces the value of an existing
/// equal key in place, appends a new entry otherwise. When the key type's
/// `==` agrees with logical equality, this has exactly the one-entry-per-key
/// semantics of a map: the inserted key is found with the inserted value,
/// every other key is untouched, and keys stay unique.
pub fn map_insert<K: PartialEq, V>(entries: &mut Vec<(K, Arc<V>)>, key: K, value: Arc<V>)
    ensures
        obeys_concrete_eq::<K>() ==> {
            &&& final(entries)@ == map_put(old(entries)@, key, value)
            &&& unique_keys(old(entries)@) ==> unique_keys(final(entries)@)
            &&& map_find(final(entries)@, key) == Some(value)
            &&& forall|k2: K|
                !(k2 == key) ==> map_find(final(entries)@, k2) == map_find(old(entries)@, k2)
        },
{
    let ghost entries0 = entries@;
    let mut i: usize = 0;
    while i < entries.len()
        invariant
            i <= entries.len(),
            entries@ == entries0,
            entries0 == old(entries)@,
            obeys_concrete_eq::<K>() ==> forall|j: int|
                0 <= j < i ==> !((#[trigger] entries0[j]).0 == key),
        decreases entries.len() - i,
    {
        let hit = entries[i].0 == key;
        if hit {
            entries.remove(i);
            entries.insert(i, (key, value));
            proof {
                reveal(vstd::laws_eq::obeys_concrete_eq);
                if obeys_concrete_eq::<K>() {
                    assert(hit == entries0[i as int].0.eq_spec(&key));
                    let pair = (key, value);
                    let updated = entries0.update(i as int, pair);
                    assert(entries@ =~= updated);
                    lemma_first_key_index_at(entries0, key, i as int);
                    assert(map_find(entries0, key) is Some);
                    assert(entries@ == map_put(entries0, key, value));
                    assert(forall|j: int|
                        0 <= j < entries0.len() ==> (#[trigger] entries@[j]).0 == entries0[j].0);
                    if unique_keys(entries0) {
                        assert forall|a: int, b: int| 0 <= a < b < entries@.len() implies !((
                        #[trigger] entries@[a]).0 == (#[trigger] entries@[b]).0) by {
                            assert(!(entries0[a].0 == entries0[b].0));
                        }
                        assert(unique_keys(entries@));
                    }
                    lemma_map_find_skip_prefix(entries@, key, i as int);
                    assert(entries@.subrange(i as int, entries@.len() as int)[0] == pair);
                    assert(map_find(entries@, key) == Some(value));
                    assert forall|k2: K| !(k2 == key) implies map_find(entries@, k2) == map_find(
                        entries0,
                        k2,
                    ) by {
                        lemma_map_find_update_same_key(entries0, i as int, pair, k2);
                        assert(map_find(updated, k2) == map_find(entries0, k2));
                    }
                }
            }
            return ;
        }
        proof {
            reveal(vstd::laws_eq::obeys_concrete_eq);
            if obeys_concrete_eq::<K>() {
                assert(hit == entries0[i as int].0.eq_spec(&key));
            }
        }
        i += 1;
    }
    entries.push((key, value));
    proof {
        reveal(vstd::laws_eq::obeys_concrete_eq);
        if obeys_concrete_eq::<K>() {
            let pair = (key, value);
            let pushed = entries0.push(pair);
            assert(entries@ =~= pushed);
            lemma_map_find_skip_prefix(entries0, key, entries0.len() as int);
            assert(entries0.subrange(entries0.len() as int, entries0.len() as int).len() == 0);
            assert(map_find(entries0, key) is None);
            lemma_map_find_push(entries0, pair, key);
            assert(map_find(entries@, key) == Some(value));
            assert(entries@ == map_put(entries0, key, value));
            if unique_keys(entries0) {
                assert forall|a: int, b: int| 0 <= a < b < entries@.len() implies !((
                #[trigger] entries@[a]).0 == (#[trigger] entries@[b]).0) by {
                    assert(entries@[a] == pushed[a]);
                    assert(entries@[b] == pushed[b]);
                    if b == entries0.len() {
                        assert(pushed[a] == entries0[a]);
                        assert(!(entries0[a].0 == key));
                    } else {
                        assert(!(entries0[a].0 == entries0[b].0));
                    }
                }
                assert(unique_keys(entries@));
            }
            assert forall|k2: K| !(k2 == key) implies map_find(entries@, k2) == map_find(
                entries0,
                k2,
            ) by {
                lemma_map_find_push(entries0, pair, k2);
                assert(map_find(pushed, k2) == map_find(entries0, k2));
            }
        }
    }
}

/// Set insertion over an item vector: appends the value unless an equal one
/// is already present. When the item type's `==` agrees with logical
/// equality, this has exactly set semantics: the value is contained
/// afterwards, no other membership changes, and items stay distinct.
pub fn set_insert<T: PartialEq>(items: &mut Vec<T>, val: T)
    ensures
        obeys_concrete_eq::<T>() ==> {
            &&& final(items)@ == set_put(old(items)@, val)
            &&& distinct_items(old(items)@) ==> distinct_items(final(items)@)
            &&& final(items)@.contains(val)
            &&& forall|x: T|
                !(x == val) ==> final(items)@.contains(x) == old(items)@.contains(x)
        },
{
    let ghost items0 = items@;
    let mut i: usize = 0;
    while i < items.len()
        invariant
            i <= items.len(),
            items@ == items0,
            items0 == old(items)@,
            obeys_concrete_eq::<T>() ==> forall|j: int| 0 <= j < i ==> !(#[trigger] items0[j]
                == val),
        decreases items.len() - i,
    {
        let hit = items[i] == val;
        if hit {
            proof {
                reveal(vstd::laws_eq::obeys_concrete_eq);
                if obeys_concrete_eq::<T>() {
                    assert(hit == items0[i as int].eq_spec(&val));
                    assert(items0[i as int] == val);
                    assert(items0.contains(val));
                    assert(items@ == set_put(items0, val));
                }
            }
            return ;
        }
        proof {
            reveal(vstd::laws_eq::obeys_concrete_eq);
            if obeys_concrete_eq::<T>() {
                assert(hit == items0[i as int].eq_spec(&val));
            }
        }
        i += 1;
    }
    items.push(val);
    proof {
        reveal(vstd::laws_eq::obeys_concrete_eq);
        if obeys_concrete_eq::<T>() {
            let pushed = items0.push(val);
            assert(items@ =~= pushed);
            assert(!items0.contains(val)) by {
                if items0.contains(val) {
                    let j = choose|j: int| 0 <= j < items0.len() && items0[j] == val;
                    assert(!(items0[j] == val));
                }
            }
            assert(items@ == set_put(items0, val));
            assert(pushed[items0.len() as int] == val);
            assert(pushed.contains(val));
            if distinct_items(items0) {
                assert forall|a: int, b: int| 0 <= a < b < pushed.len() implies !((
                #[trigger] pushed[a]) == (#[trigger] pushed[b])) by {
                    if b == items0.len() as int {
                        assert(pushed[a] == items0[a]);
                        assert(!(items0[a] == val));
                    }
                }
            }
            assert forall|x: T| !(x == val) implies pushed.contains(x) == items0.contains(
                x,
            ) by {
                if items0.contains(x) {
                    let j = choose|j: int| 0 <= j < items0.len() && items0[j] == x;
                    assert(pushed[j] == x);
                    assert(pushed.contains(x));
                }
                if pushed.contains(x) {
                    let j = choose|j: int| 0 <= j < pushed.len() && pushed[j] == x;
                    assert(j < items0.len());
                    assert(items0[j] == x);
                    assert(items0.contains(x));
                }
            }
        }
    }
}

/// The executable lines of a payload: string for string, their views are
/// exactly the payload's lines.
pub open spec fn lines_match(lines: Seq<String>, payload: Seq<char>) -> bool {
    &&& lines.len() == split_lines_spec(payload).len()
    &&& forall|j: int|
        0 <= j < lines.len() ==> (#[trigger] lines[j])@ == split_lines_spec(payload)[j]
}

/// A map parse outcome as the parse function reported it, its value no
/// longer behind the shared pointer the map stores.
pub open spec fn map_out_view<K, V>(o: Option<(K, Arc<V>)>) -> Option<(K, V)> {
    match o {
        None => None,
        Some(p) => Some((p.0, *p.1)),
    }
}

/// The fold of per-line parse outcomes into a map: a skipped line
/// contributes nothing; a parsed pair goes in by map insertion, so the last
/// value per key wins and nothing else ever enters.
pub open spec fn fold_map_entries<K, V>(outs: Seq<Option<(K, V)>>) -> Seq<(K, V)>
    decreases outs.len(),
{
    if outs.len() == 0 {
        Seq::empty()
    } else {
        let prev = fold_map_entries(outs.drop_last());
        match outs.last() {
            None => prev,
            Some(p) => map_put(prev, p.0, p.1),
        }
    }
}

/// The fold of per-line parse outcomes into a set: a skipped line
/// contributes nothing; a parsed value goes in by set insertion.
pub open spec fn fold_set_items<V>(outs: Seq<Option<V>>) -> Seq<V>
    decreases outs.len(),
{
    if outs.len() == 0 {
        Seq::empty()
    } else {
        let prev = fold_set_items(outs.drop_last());
        match outs.last() {
            None => prev,
            Some(v) => set_put(prev, v),
        }
    }
}

/// One admissible trace of a map parse function over the given lines:
/// outcome `j` is a result the function admits on line `j`.
pub open spec fn map_parse_trace<K, V, P: Fn(String) -> Result<Option<(K, V)>, Error>>(
    parse: P,
    lines: Seq<String>,
    outs: Seq<Option<(K, Arc<V>)>>,
) -> bool {
    &&& outs.len() == lines.len()
    &&& forall|j: int|
        #![trigger outs[j]]
        0 <= j < lines.len() ==> call_ensures(parse, (lines[j],), Ok(map_out_view(outs[j])))
}

/// One admissible trace of a set parse function over the given lines.
pub open spec fn set_parse_trace<V, P: Fn(String) -> Result<Option<V>, Error>>(
    parse: P,
    lines: Seq<String>,
    outs: Seq<Option<V>>,
) -> bool {
    &&& outs.len() == lines.len()
    &&& forall|j: int|
        #![trigger outs[j]]
        0 <= j < lines.len() ==> call_ensures(parse, (lines[j],), Ok(outs[j]))
}

/// The produced map is the fold of one trace of parse outcomes, each
/// admitted by the parse function on the corresponding line of the payload.
/// For a parse function that answers each line one way — any function in
/// the mathematical sense — this fixes the map completely: every parsed
/// pair is present, the last value per key wins, skipped lines contribute
/// nothing, and nothing else enters.
pub open spec fn map_from_trace<K, V, P: Fn(String) -> Result<Option<(K, V)>, Error>>(
    parse: P,
    payload: Seq<char>,
    result: Seq<(K, Arc<V>)>,
) -> bool {
    exists|lines: Seq<String>, outs: Seq<Option<(K, Arc<V>)>>|
        {
            &&& #[trigger] map_parse_trace(parse, lines, outs)
            &&& lines_match(lines, payload)
            &&& result == fold_map_entries(outs)
        }
}

/// The set analogue of `map_from_trace`.
pub open spec fn set_from_trace<V, P: Fn(String) -> Result<Option<V>, Error>>(
    parse: P,
    payload: Seq<char>,
    result: Seq<V>,
) -> bool {
    exists|lines: Seq<String>, outs: Seq<Option<V>>|
        {
            &&& #[trigger] set_parse_trace(parse, lines, outs)
            &&& lines_match(lines, payload)
            &&& result == fold_set_items(outs)
        }
}

/// The parse function rejected line `outs.len()` of the payload with
/// exactly this error, after admitting the outcomes `outs` on all the lines
/// before it — the error comes from the first line the function turned
/// down. How a line processor's `process` fails, and the only way it does.
pub open spec fn map_parse_error_at<K, V, P: Fn(String) -> Result<Option<(K, V)>, Error>>(
    parse: P,
    payload: Seq<char>,
    e: Error,
) -> bool {
    exists|lines: Seq<String>, outs: Seq<Option<(K, Arc<V>)>>|
        #![trigger map_parse_trace(parse, lines.subrange(0, outs.len() as int), outs)]
        {
            &&& lines_match(lines, payload)
            &&& outs.len() < lines.len()
            &&& map_parse_trace(parse, lines.subrange(0, outs.len() as int), outs)
            &&& call_ensures(parse, (lines[outs.len() as int],), Err(e))
        }
}

/// The set analogue of `map_parse_error_at`.
pub open spec fn set_parse_error_at<V, P: Fn(String) -> Result<Option<V>, Error>>(
    parse: P,
    payload: Seq<char>,
    e: Error,
) -> bool {
    exists|lines: Seq<String>, outs: Seq<Option<V>>|
        #![trigger set_parse_trace(parse, lines.subrange(0, outs.len() as int), outs)]
        {
            &&& lines_match(lines, payload)
            &&& outs.len() < lines.len()
            &&& set_parse_trace(parse, lines.subrange(0, outs.len() as int), outs)
            &&& call_ensures(parse, (lines[outs.len() as int],), Err(e))
        }
}

/// A processor that turns a text payload into a map: each line through the
/// user's parse function, `None` results skipped, parsed pairs collected
/// one-entry-per-key with the last value winning. The parse function must
/// accept every line.
#[verifier::reject_recursive_types(K)]
#[verifier::reject_recursive_types(V)]
pub struct RawLineMapProcessor<K, V, P: Fn(String) -> Result<Option<(K, V)>, Error>> {
    parse: P,
    phantom: PhantomData<(K, V)>,
}

#[verifier::type_invariant]
spec fn map_processor_inv<K, V, P: Fn(String) -> Result<Option<(K, V)>, Error>>(
    p: RawLineMapProcessor<K, V, P>,
) -> bool {
    forall|args: (String,)| #[trigger] call_requires(p.parse, args)
}

impl<K, V, P: Fn(String) -> Result<Option<(K, V)>, Error>> RawLineMapProcessor<K, V, P> {
    /// The parse function this processor applies to each line.
    pub closed spec fn parse_fn(&self) -> P {
        self.parse
    }

    /// Wraps `parse` as a line-map processor.
    pub fn new(parse: P) -> RawLineMapProcessor<K, V, P>
        requires
            forall|args: (String,)| #[trigger] call_requires(parse, args),
    {
        RawLineMapProcessor { parse, phantom: PhantomData }
    }
}

impl<K: PartialEq, V, P: Fn(String) -> Result<Option<(K, V)>, Error>> RawConfigProcessor<
    String,
    Vec<(K, Arc<V>)>,
> for RawLineMapProcessor<K, V, P> {
    /// Whenever the key type's `==` agrees with logical equality, every map
    /// this processor produces has unique keys.
    open spec fn good(&self, v: &Vec<(K, Arc<V>)>) -> bool {
        obeys_concrete_eq::<K>() ==> unique_keys(v@)
    }

    #[verifier::rlimit(50)]
    fn process(&self, raw: String) -> (r: Result<Vec<(K, Arc<V>)>, Error>)
        ensures
            r matches Ok(v) ==> self.good(&v),
            r matches Ok(v) ==> (obeys_concrete_eq::<K>() ==> map_from_trace(
                self.parse_fn(),
                raw@,
                v@,
            )),
            r matches Err(e) ==> map_parse_error_at(self.parse_fn(), raw@, e),
    {
        proof {
            use_type_invariant(self);
        }
        let lines = split_lines(raw.as_str());
        proof {
            assert(lines_match(lines@, raw@));
        }
        let mut map: Vec<(K, Arc<V>)> = Vec::new();
        let ghost mut outs: Seq<Option<(K, Arc<V>)>> = Seq::empty();
        let mut i: usize = 0;
        while i < lines.len()
            invariant
                i <= lines.len(),
                forall|args: (String,)| #[trigger] call_requires(self.parse, args),
                self.parse_fn() == self.parse,
                lines_match(lines@, raw@),
                outs.len() == i as int,
                forall|j: int|
                    #![trigger outs[j]]
                    0 <= j < i ==> call_ensures(self.parse, (lines@[j],), Ok(map_out_view(outs[j]))),
                obeys_concrete_eq::<K>() ==> map@ == fold_map_entries(outs),
                obeys_concrete_eq::<K>() ==> unique_keys(map@),
            decreases lines.len() - i,
        {
            let line = lines[i].clone();
            match (self.parse)(line) {
                Err(e) => {
                    proof {
                        assert(call_ensures(self.parse_fn(), (lines@[i as int],), Err(e)));
                        let prefix = lines@.subrange(0, outs.len() as int);
                        assert(forall|j: int| 0 <= j < i ==> #[trigger] prefix[j] == lines@[j]);
                        assert(map_parse_trace(self.parse_fn(), prefix, outs));
                        assert(map_parse_error_at(self.parse_fn(), raw@, e));
                    }
                    return Err(e);
                },
                Ok(None) => {
                    proof {
                        let prev_outs = outs;
                        outs = outs.push(None);
                        assert(outs.drop_last() =~= prev_outs);
                        assert(outs.last() is None);
                        assert(call_ensures(
                            self.parse,
                            (lines@[i as int],),
                            Ok(map_out_view(outs[i as int])),
                        ));
                        if obeys_concrete_eq::<K>() {
                            assert(fold_map_entries(outs) == fold_map_entries(prev_outs));
                        }
                    }
                },
                Ok(Some((k, v))) => {
                    let ghost k0 = k;
                    let ghost v0 = v;
                    let shared = Arc::new(v);
                    let ghost shared0 = shared;
                    let ghost map_before = map@;
                    map_insert(&mut map, k, shared);
                    proof {
                        let prev_outs = outs;
                        outs = outs.push(Some((k0, shared0)));
                        assert(outs.drop_last() =~= prev_outs);
                        assert(outs.last() == Some((k0, shared0)));
                        assert(*shared0 == v0);
                        assert(map_out_view(outs[i as int]) == Some((k0, v0)));
                        assert(call_ensures(self.parse, (lines@[i as int],), Ok(Some((k0, v0)))));
                        if obeys_concrete_eq::<K>() {
                            assert(map@ == map_put(map_before, k0, shared0));
                            assert(fold_map_entries(outs) == map_put(
                                fold_map_entries(prev_outs),
                                k0,
                                shared0,
                            ));
                        }
                    }
                },
            }
            i += 1;
        }
        proof {
            if obeys_concrete_eq::<K>() {
                assert(map_parse_trace(self.parse_fn(), lines@, outs));
                assert(map_from_trace(self.parse_fn(), raw@, map@));
            }
        }
        Ok(map)
    }
}

/// A processor that turns a text payload into a set: each line through the
/// user's parse function, `None` results skipped, parsed values collected
/// without duplicates. The parse function must accept every line.
#[verifier::reject_recursive_types(V)]
pub struct RawLineSetProcessor<V, P: Fn(String) -> Result<Option<V>, Error>> {
    parse: P,
    phantom: PhantomData<V>,
}

#[verifier::type_invariant]
spec fn set_processor_inv<V, P: Fn(String) -> Result<Option<V>, Error>>(
    p: RawLineSetProcessor<V, P>,
) -> bool {
    forall|args: (String,)| #[trigger] call_requires(p.parse, args)
}

impl<V, P: Fn(String) -> Result<Option<V>, Error>> RawLineSetProcessor<V, P> {
    /// The parse function this processor applies to each line.
    pub closed spec fn parse_fn(&self) -> P {
        self.parse
    }

    /// Wraps `parse` as a line-set processor.
    pub fn new(parse: P) -> RawLineSetProcessor<V, P>
        requires
            forall|args: (String,)| #[trigger] call_requires(parse, args),
    {
        RawLineSetProcessor { parse, phantom: PhantomData }
    }
}

impl<V: PartialEq, P: Fn(String) -> Result<Option<V>, Error>> RawConfigProcessor<
    String,
    Vec<V>,
> for RawLineSetProcessor<V, P> {
    /// Whenever the item type's `==` agrees with logical equality, every set
    /// this processor produces has distinct items.
    open spec fn good(&self, v: &Vec<V>) -> bool {
        obeys_concrete_eq::<V>() ==> distinct_items(v@)
    }

    #[verifier::rlimit(50)]
    fn process(&self, raw: String) -> (r: Result<Vec<V>, Error>)
        ensures
            r matches Ok(v) ==> self.good(&v),
            r matches Ok(v) ==> (obeys_concrete_eq::<V>() ==> set_from_trace(
                self.parse_fn(),
                raw@,
                v@,
            )),
            r matches Err(e) ==> set_parse_error_at(self.parse_fn(), raw@, e),
    {
        proof {
            use_type_invariant(self);
        }
        let lines = split_lines(raw.as_str());
        proof {
            assert(lines_match(lines@, raw@));
        }
        let mut set: Vec<V> = Vec::new();
        let ghost mut outs: Seq<Option<V>> = Seq::empty();
        let mut i: usize = 0;
        while i < lines.len()
            invariant
                i <= lines.len(),
                forall|args: (String,)| #[trigger] call_requires(self.parse, args),
                self.parse_fn() == self.parse,
                lines_match(lines@, raw@),
                outs.len() == i as int,
                forall|j: int|
                    #![trigger outs[j]]
                    0 <= j < i ==> call_ensures(self.parse, (lines@[j],), Ok(outs[j])),
                obeys_concrete_eq::<V>() ==> set@ == fold_set_items(outs),
                obeys_concrete_eq::<V>() ==> distinct_items(set@),
            decreases lines.len() - i,
        {
            let line = lines[i].clone();
            match (self.parse)(line) {
                Err(e) => {
                    proof {
                        assert(call_ensures(self.parse_fn(), (lines@[i as int],), Err(e)));
                        let prefix = lines@.subrange(0, outs.len() as int);
                        assert(forall|j: int| 0 <= j < i ==> #[trigger] prefix[j] == lines@[j]);
                        assert(set_parse_trace(self.parse_fn(), prefix, outs));
                        assert(set_parse_error_at(self.parse_fn(), raw@, e));
                    }
                    return Err(e);
                },
                Ok(None) => {
                    proof {
                        let prev_outs = outs;
                        outs = outs.push(None);
                        assert(outs.drop_last() =~= prev_outs);
                        assert(outs.last() is None);
                        assert(call_ensures(self.parse, (lines@[i as int],), Ok(outs[i as int])));
                        if obeys_concrete_eq::<V>() {
                            assert(fold_set_items(outs) == fold_set_items(prev_outs));
                        }
                    }
                },
                Ok(Some(v)) => {
                    let ghost v0 = v;
                    let ghost set_before = set@;
                    set_insert(&mut set, v);
                    proof {
                        let prev_outs = outs;
                        outs = outs.push(Some(v0));
                        assert(outs.drop_last() =~= prev_outs);
                        assert(outs.last() == Some(v0));
                        assert(call_ensures(self.parse, (lines@[i as int],), Ok(outs[i as int])));
                        if obeys_concrete_eq::<V>() {
                            assert(set@ == set_put(set_before, v0));
                            assert(fold_set_items(outs) == set_put(fold_set_items(prev_outs), v0));
                        }
                    }
                },
            }
            i += 1;
        }
        proof {
            if obeys_concrete_eq::<V>() {
                assert(set_parse_trace(self.parse_fn(), lines@, outs));
                assert(set_from_trace(self.parse_fn(), raw@, set@));
            }
        }
        Ok(set)
    }
}

} // verus!
