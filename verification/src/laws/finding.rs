//! Laws of names and identifiers.

use vstd::multiset::Multiset;
use vstd::prelude::*;
use vstd::seq_lib::group_to_multiset_ensures;
use vstd::utf8::{encode_utf8, is_ascii_chars_encode_utf8};

use crate::commands::list::hex_ids_of;
use crate::commands::sessions::{
    begins_with_query, is_next_name_begin, is_resolved, prefix_matches, NextNameFlow,
};
use crate::commands::{numbered_text, NameBase};
use crate::display::{
    begins_with, hex_text, sharing, short_text, shortest_unique, singles_out, unique_from,
};
use crate::entity::session::Model;
use crate::failure::Failure;
use crate::flow::{is_run, Effect, Event, Flow};
use crate::laws::files::filter_keeps;
use crate::laws::history::{just_failed, misanswered};
use crate::text::{ascii, decimal, decimal_is_digits, decimal_is_injective, has_prefix};

verus! {

// ── Unused names ────────────────────────────────────────────────────────────

/// The names that are tried one after the other all differ.
pub proof fn tried_names_differ(base: Seq<char>, m: nat, n: nat)
    requires
        1 <= m,
        1 <= n,
        numbered_text(base, m) == numbered_text(base, n),
    ensures
        m == n,
{
    reveal_strlit("-");
    let a = numbered_text(base, m);
    let b = numbered_text(base, n);
    if m > 1 && n > 1 {
        let from = base.len() as int + 1;
        assert(a.skip(from) =~= decimal(m));
        assert(b.skip(from) =~= decimal(n));
        decimal_is_injective(m, n);
    } else if m > 1 {
        decimal_is_digits(m);
        assert(a.len() > base.len());
    } else if n > 1 {
        decimal_is_digits(n);
        assert(b.len() > base.len());
    }
}

proof fn names_are_tried_in_order(
    base: String,
    states: Seq<NextNameFlow>,
    effects: Seq<Effect>,
    events: Seq<Event>,
    k: int,
)
    requires
        is_run(states, effects, events),
        states[0] == (NextNameFlow::Try { base, number: 1 }),
        effects[0] matches Effect::FindByName { name } && name@ == base@,
        0 <= k < effects.len(),
    ensures
        match states[k] {
            NextNameFlow::Try { base: b, number } => {
                &&& b == base && number == k + 1
                &&& effects[k] matches Effect::FindByName { name }
                &&& name@ == numbered_text(base@, (k + 1) as nat)
                &&& forall|j: int| 0 <= j < k ==> (#[trigger] events[j] matches Event::Row(Some(_)))
            },
            NextNameFlow::Over => effects[k] is Finish,
        },
    decreases k,
{
    if k > 0 {
        names_are_tried_in_order(base, states, effects, events, k - 1);
        assert(states[k - 1].leads_to(events[k - 1], states[k], effects[k]));
    }
}

/// The name that is found is the first one in the order of trial that no session has: it was
/// looked for and not found, and all before it were found.
pub proof fn found_name_is_unused(
    base: String,
    states: Seq<NextNameFlow>,
    effects: Seq<Effect>,
    events: Seq<Event>,
    k: int,
)
    requires
        is_run(states, effects, events),
        states[0] == (NextNameFlow::Try { base, number: 1 }),
        effects[0] matches Effect::FindByName { name } && name@ == base@,
        0 <= k < effects.len(),
        effects[k] matches Effect::Finish(Event::Text(_)),
    ensures
        effects[k] matches Effect::Finish(Event::Text(name)) && k > 0 && name@ == numbered_text(
            base@,
            k as nat,
        ) && (effects[k - 1] matches Effect::FindByName { name: tried } && tried@ == name@)
            && events[k - 1] == Event::Row(None),
        forall|j: int| 0 <= j < k - 1 ==> (#[trigger] events[j] matches Event::Row(Some(_))),
{
    names_are_tried_in_order(base, states, effects, events, k);
    if k > 0 {
        names_are_tried_in_order(base, states, effects, events, k - 1);
        assert(states[k - 1].leads_to(events[k - 1], states[k], effects[k]));
    }
}

/// The name after `n - 1` others: the first is the base, the others have a hyphen and a number.
pub open spec fn tried_in_place(base: NameBase, n: nat) -> Seq<char> {
    let first = match base {
        NameBase::Asked(name) => name@,
        NameBase::Cleanup { session_name, uuid } => session_name@ + "-cleanup-"@ + short_text(uuid@),
    };
    if n == 1 {
        first
    } else {
        first + seq!['-'] + decimal(n)
    }
}

/// What the search for an unused name asks for: whether a session has the name that comes next in
/// the order of trial, each only after all before it were found to be taken; it ends with the
/// first that no session has.
pub proof fn names_are_tried_one_by_one(
    base: NameBase,
    states: Seq<NextNameFlow>,
    effects: Seq<Effect>,
    events: Seq<Event>,
    k: int,
)
    requires
        is_run(states, effects, events),
        is_next_name_begin(base, (states[0], effects[0])),
        0 <= k < effects.len(),
    ensures
        match effects[k] {
            Effect::FindByName { name } => name@ == tried_in_place(base, (k + 1) as nat) && (k == 0
                || (events[k - 1] matches Event::Row(Some(_)))),
            Effect::Finish(Event::Text(name)) => k > 0 && name@ == tried_in_place(base, k as nat)
                && (effects[k - 1] matches Effect::FindByName { name: tried } && tried@ == name@)
                && events[k - 1] == Event::Row(None),
            Effect::Finish(Event::Failed(f)) => {
                ||| just_failed(events, k, f)
                ||| f == Failure::UnexpectedReply && misanswered(effects, events, k)
                ||| f == Failure::NamesExhausted && k == u64::MAX
            },
            _ => false,
        },
{
    reveal_strlit("-");
    assert("-"@ =~= seq!['-']);
    match states[0] {
        NextNameFlow::Try { base: text, .. } => {
            names_are_tried_in_order(text, states, effects, events, k);
            if k > 0 {
                names_are_tried_in_order(text, states, effects, events, k - 1);
                assert(effects[k - 1] !is Finish);
                assert(states[k - 1].leads_to(events[k - 1], states[k], effects[k]));
            }
        },
        NextNameFlow::Over => {},
    }
}

// ── Unique prefixes ─────────────────────────────────────────────────────────

proof fn byte_of_ascii(c: char)
    requires
        c < '\u{80}',
    ensures
        '\0' <= c <= '\u{7f}',
        c as u8 as int == c as int,
{
}

proof fn ascii_bytes(s: Seq<char>)
    requires
        ascii(s),
    ensures
        encode_utf8(s).len() == s.len(),
        forall|i: int| 0 <= i < s.len() ==> #[trigger] encode_utf8(s)[i] == s[i] as u8,
{
    assert forall|i: int| 0 <= i < s.len() implies '\0' <= #[trigger] s[i] <= '\u{7f}' by {
        byte_of_ascii(s[i]);
    }
    is_ascii_chars_encode_utf8(s);
}

proof fn ascii_prefix(s: Seq<char>, n: int)
    requires
        ascii(s),
        0 <= n <= s.len(),
    ensures
        ascii(s.take(n)),
        encode_utf8(s.take(n)) == encode_utf8(s).take(n),
{
    ascii_bytes(s);
    assert forall|i: int| 0 <= i < n implies #[trigger] s.take(n)[i] < '\u{80}' by {
        assert(s[i] < '\u{80}');
    }
    ascii_bytes(s.take(n));
    assert(encode_utf8(s.take(n)) =~= encode_utf8(s).take(n));
}

proof fn ascii_prefixes_agree(s: Seq<char>, p: Seq<char>)
    requires
        ascii(s),
        ascii(p),
    ensures
        begins_with(encode_utf8(s), encode_utf8(p)) == has_prefix(s, p),
{
    ascii_bytes(s);
    ascii_bytes(p);
    if p.len() <= s.len() {
        ascii_prefix(s, p.len() as int);
        let head = s.take(p.len() as int);
        if has_prefix(s, p) {
            assert(head =~= p);
        }
        if encode_utf8(head) == encode_utf8(p) {
            ascii_bytes(head);
            assert forall|i: int| 0 <= i < p.len() implies head[i] == p[i] by {
                assert(encode_utf8(head)[i] == encode_utf8(p)[i]);
                byte_of_ascii(head[i]);
                byte_of_ascii(p[i]);
            }
            assert(head =~= p);
        }
    }
}

/// The identifiers of the sessions are ASCII.
pub open spec fn ascii_ids(rows: Seq<Model>) -> bool {
    forall|i: int| 0 <= i < rows.len() ==> ascii(hex_text((#[trigger] rows[i]).copilot_uuid@))
}

proof fn matches_are_counted(rows: Seq<Model>, query: Seq<char>)
    requires
        ascii_ids(rows),
        ascii(query),
    ensures
        sharing(hex_ids_of(rows), encode_utf8(query)) == prefix_matches(rows, query).len(),
    decreases rows.len(),
{
    if rows.len() > 0 {
        let rest = rows.drop_last();
        assert(ascii_ids(rest)) by {
            assert forall|i: int| 0 <= i < rest.len() implies ascii(
                hex_text((#[trigger] rest[i]).copilot_uuid@),
            ) by {
                assert(rest[i] == rows[i]);
            }
        }
        matches_are_counted(rest, query);
        assert(hex_ids_of(rows).drop_last() =~= hex_ids_of(rest));
        let last = rows[rows.len() - 1];
        ascii_prefixes_agree(hex_text(last.copilot_uuid@), query);
    }
}

proof fn match_is_among(rows: Seq<Model>, query: Seq<char>, i: int)
    requires
        0 <= i < rows.len(),
        begins_with_query(rows[i], query),
    ensures
        prefix_matches(rows, query).contains(rows[i]),
    decreases rows.len(),
{
    let all = prefix_matches(rows, query);
    if i == rows.len() - 1 {
        assert(all[all.len() - 1] == rows[i]);
    } else {
        match_is_among(rows.drop_last(), query, i);
        let before = prefix_matches(rows.drop_last(), query);
        let k = before.index_of(rows[i]);
        assert(all[k] == rows[i]);
    }
}

proof fn unique_from_is_least(id: Seq<char>, universe: Seq<Seq<char>>, n: int)
    requires
        0 <= n,
    ensures
        ({
            let r = unique_from(id, universe, n);
            let len = encode_utf8(id).len();
            &&& r <= len
            &&& n <= len ==> n <= r
            &&& r < len ==> singles_out(id, universe, r)
            &&& forall|k: int| n <= k < r ==> !#[trigger] singles_out(id, universe, k)
        }),
    decreases encode_utf8(id).len() - n,
{
    if n < encode_utf8(id).len() && !singles_out(id, universe, n) {
        unique_from_is_least(id, universe, n + 1);
    }
}

/// The shown length is the least number of bytes that single a session out: no shorter prefix
/// does, and it does itself unless it is the whole identifier.
pub proof fn unique_prefix_is_shortest(id: Seq<char>, universe: Seq<Seq<char>>)
    requires
        encode_utf8(id).len() > 0,
    ensures
        1 <= shortest_unique(id, universe) <= encode_utf8(id).len(),
        shortest_unique(id, universe) < encode_utf8(id).len() ==> singles_out(
            id,
            universe,
            shortest_unique(id, universe),
        ),
        forall|k: int|
            1 <= k < shortest_unique(id, universe) ==> !#[trigger] singles_out(id, universe, k),
{
    unique_from_is_least(id, universe, 1);
}

proof fn sharing_counts(universe: Seq<Seq<char>>, p: Seq<u8>)
    ensures
        sharing(universe, p) == universe.to_multiset().filter(
            |s: Seq<char>| begins_with(encode_utf8(s), p),
        ).len(),
    decreases universe.len(),
{
    broadcast use group_to_multiset_ensures;

    let f = |s: Seq<char>| begins_with(encode_utf8(s), p);
    if universe.len() == 0 {
        assert(universe.to_multiset().filter(f) =~= Multiset::empty());
    } else {
        let rest = universe.drop_last();
        let last = universe.last();
        sharing_counts(rest, p);
        assert(universe =~= rest.push(last));
        let m = rest.to_multiset();
        assert(universe.to_multiset() =~= m.insert(last));
        if f(last) {
            assert(universe.to_multiset().filter(f) =~= m.filter(f).insert(last));
        } else {
            assert(universe.to_multiset().filter(f) =~= m.filter(f));
        }
    }
}

/// Among more identifiers, a unique prefix is never shorter.
pub proof fn unique_prefix_grows(
    id: Seq<char>,
    universe: Seq<Seq<char>>,
    larger: Seq<Seq<char>>,
)
    requires
        universe.contains(id),
        universe.to_multiset().subset_of(larger.to_multiset()),
    ensures
        shortest_unique(id, universe) <= shortest_unique(id, larger),
{
    broadcast use group_to_multiset_ensures;

    let len = encode_utf8(id).len();
    let n = shortest_unique(id, larger);
    unique_from_is_least(id, universe, 1);
    unique_from_is_least(id, larger, 1);
    if n < len {
        let p = encode_utf8(id).take(n);
        let f = |s: Seq<char>| begins_with(encode_utf8(s), p);
        let few = universe.to_multiset().filter(f);
        let many = larger.to_multiset().filter(f);
        sharing_counts(universe, p);
        sharing_counts(larger, p);
        assert(few.subset_of(many)) by {
            assert forall|s: Seq<char>| few.count(s) <= many.count(s) by {
                assert(universe.to_multiset().count(s) <= larger.to_multiset().count(s));
            }
        }
        assert(many.sub(few).len() == many.len() - few.len());
        assert(f(id));
        assert(few.count(id) > 0);
        assert(few.count(id) <= few.len());
        assert(singles_out(id, universe, n));
    }
}

/// Taking the hyphens out of a text a second time changes nothing.
pub proof fn hyphens_are_gone(s: Seq<char>)
    ensures
        hex_text(hex_text(s)) == hex_text(s),
{
    let f = |c: char| c != '-';
    assert forall|i: int| 0 <= i < hex_text(s).len() implies #[trigger] hex_text(s)[i] != '-' by {
        s.lemma_filter_pred(f, i);
    }
    filter_keeps(hex_text(s));
}

/// A prefix that singles a session out among all sessions finds that session, if no session
/// has the prefix as its name.
pub proof fn singled_out_session_is_found(rows: Seq<Model>, i: int, query: String)
    requires
        0 <= i < rows.len(),
        ascii_ids(rows),
        has_prefix(hex_text(rows[i].copilot_uuid@), query@),
        singles_out(hex_text(rows[i].copilot_uuid@), hex_ids_of(rows), query@.len() as int),
    ensures
        is_resolved(query, rows, Ok(rows[i])),
{
    let id = hex_text(rows[i].copilot_uuid@);
    ascii_prefix(id, query@.len() as int);
    assert(id.take(query@.len() as int) =~= query@);
    matches_are_counted(rows, query@);
    match_is_among(rows, query@, i);
    let found = prefix_matches(rows, query@);
    let k = found.index_of(rows[i]);
    assert(found[0] == rows[i]);
}

proof fn different_id_does_not_share(universe: Seq<Seq<char>>, id: Seq<char>)
    requires
        forall|j: int|
            0 <= j < universe.len() ==> ascii(#[trigger] universe[j]) && universe[j].len()
                == id.len() && universe[j] != id,
        ascii(id),
    ensures
        sharing(universe, encode_utf8(id)) == 0,
    decreases universe.len(),
{
    if universe.len() > 0 {
        let rest = universe.drop_last();
        assert forall|j: int| 0 <= j < rest.len() implies ascii(#[trigger] rest[j]) && rest[j].len()
            == id.len() && rest[j] != id by {
            assert(rest[j] == universe[j]);
        }
        different_id_does_not_share(rest, id);
        let last = universe[universe.len() - 1];
        ascii_prefixes_agree(last, id);
        if has_prefix(last, id) {
            assert(last.take(id.len() as int) =~= last);
        }
    }
}

proof fn own_id_is_counted(universe: Seq<Seq<char>>, i: int)
    requires
        0 <= i < universe.len(),
        forall|j: int|
            0 <= j < universe.len() ==> ascii(#[trigger] universe[j]) && universe[j].len()
                == universe[i].len() && (j != i ==> universe[j] != universe[i]),
    ensures
        sharing(universe, encode_utf8(universe[i])) == 1,
    decreases universe.len(),
{
    let id = universe[i];
    let rest = universe.drop_last();
    let last = universe[universe.len() - 1];
    ascii_prefixes_agree(last, id);
    if i == universe.len() - 1 {
        assert forall|j: int| 0 <= j < rest.len() implies ascii(#[trigger] rest[j]) && rest[j].len()
            == id.len() && rest[j] != id by {
            assert(rest[j] == universe[j]);
        }
        different_id_does_not_share(rest, id);
        assert(last.take(id.len() as int) =~= id);
    } else {
        assert(rest[i] == id);
        assert forall|j: int| 0 <= j < rest.len() implies ascii(#[trigger] rest[j]) && rest[j].len()
            == rest[i].len() && (j != i ==> rest[j] != rest[i]) by {
            assert(rest[j] == universe[j]);
        }
        own_id_is_counted(rest, i);
        if has_prefix(last, id) {
            assert(last.take(id.len() as int) =~= last);
        }
    }
}

/// The shortest unique prefix of a session, which a listing marks, finds that session: where
/// the identifiers of all sessions differ and are equally long, that prefix singles the
/// session out, so looking for it yields the session, unless a session has it as its name.
pub proof fn shown_prefix_finds_the_session(rows: Seq<Model>, i: int, query: String)
    requires
        0 <= i < rows.len(),
        ascii_ids(rows),
        hex_text(rows[i].copilot_uuid@).len() > 0,
        forall|j: int|
            0 <= j < rows.len() ==> hex_text((#[trigger] rows[j]).copilot_uuid@).len() == hex_text(
                rows[i].copilot_uuid@,
            ).len() && (j != i ==> hex_text(rows[j].copilot_uuid@) != hex_text(
                rows[i].copilot_uuid@,
            )),
        query@ == hex_text(rows[i].copilot_uuid@).take(
            shortest_unique(hex_text(rows[i].copilot_uuid@), hex_ids_of(rows)),
        ),
    ensures
        is_resolved(query, rows, Ok(rows[i])),
{
    let ids = hex_ids_of(rows);
    let id = ids[i];
    ascii_bytes(id);
    unique_prefix_is_shortest(id, ids);
    let n = shortest_unique(id, ids);
    if n == id.len() {
        assert forall|j: int| 0 <= j < ids.len() implies ascii(#[trigger] ids[j]) && ids[j].len()
            == ids[i].len() && (j != i ==> ids[j] != ids[i]) by {
            assert(ids[j] == hex_text(rows[j].copilot_uuid@));
        }
        own_id_is_counted(ids, i);
        assert(encode_utf8(id).take(n) =~= encode_utf8(id));
    }
    singled_out_session_is_found(rows, i, query);
}

} // verus!
