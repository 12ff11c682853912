use vstd::prelude::*;
use crate::ids::{lemma_uuid_text_order, RunId};
use crate::run::{key_segment, ordering_key};
use crate::text::{differs_first_at, lex_lt, lemma_head_decides, lemma_prefix_keeps_order};
use crate::time::{lemma_stamp_text_len, lemma_stamp_text_order, stamp_before, stamp_text, Timestamp};

verus! {

/// `child` is a key below `parent`: it starts with the parent's key and a
/// dot, and is longer than that.
pub open spec fn extends_key(child: Seq<char>, parent: Seq<char>) -> bool {
    &&& child.len() > parent.len() + 1
    &&& child.subrange(0, parent.len() as int + 1) == parent.push('.')
}

/// Run `a` was created before run `b`: it started earlier, or at the same
/// instant with a smaller identifier.
pub open spec fn created_before(a_start: Timestamp, a_id: RunId, b_start: Timestamp, b_id: RunId) -> bool {
    ||| stamp_before(a_start, b_start)
    ||| a_start == b_start && a_id.value < b_id.value
}

/// A child's ordering key extends its parent's: the parent's key, a dot, and
/// at least one more character.
pub proof fn lemma_child_key_extends(parent: Seq<char>, start: Timestamp, id: RunId)
    ensures
        extends_key(ordering_key(start, id, Some(parent)), parent),
{
    let k = ordering_key(start, id, Some(parent));
    assert(k.subrange(0, parent.len() as int + 1) =~= parent.push('.'));
}

/// Keys of siblings follow creation order: of two runs under the same parent
/// key (or both roots), the one created first has the smaller key, as long as
/// both started before the year 10000.
pub proof fn lemma_sibling_keys_in_creation_order(
    parent: Option<Seq<char>>,
    a_start: Timestamp,
    a_id: RunId,
    b_start: Timestamp,
    b_id: RunId,
)
    requires
        a_start.wf(),
        b_start.wf(),
        a_start.year <= 9999,
        b_start.year <= 9999,
        created_before(a_start, a_id, b_start, b_id),
    ensures
        lex_lt(ordering_key(a_start, a_id, parent), ordering_key(b_start, b_id, parent)),
{
    let sa = key_segment(a_start, a_id);
    let sb = key_segment(b_start, b_id);
    let i = if stamp_before(a_start, b_start) {
        let k = lemma_stamp_text_order(a_start, b_start);
        lemma_stamp_text_len(a_start);
        lemma_stamp_text_len(b_start);
        lemma_head_decides(
            stamp_text(a_start),
            seq!['Z'] + crate::ids::uuid_text(a_id.value),
            stamp_text(b_start),
            seq!['Z'] + crate::ids::uuid_text(b_id.value),
            k,
        );
        k
    } else {
        let k = lemma_uuid_text_order(a_id.value, b_id.value);
        lemma_prefix_keeps_order(seq!['Z'], crate::ids::uuid_text(a_id.value), crate::ids::uuid_text(b_id.value), k);
        lemma_prefix_keeps_order(
            stamp_text(a_start),
            seq!['Z'] + crate::ids::uuid_text(a_id.value),
            seq!['Z'] + crate::ids::uuid_text(b_id.value),
            1 + k,
        );
        stamp_text(a_start).len() + 1 + k
    };
    assert(differs_first_at(sa, sb, i));
    match parent {
        Some(p) => {
            lemma_prefix_keeps_order(seq!['.'], sa, sb, i);
            lemma_prefix_keeps_order(p, seq!['.'] + sa, seq!['.'] + sb, 1 + i);
            assert(differs_first_at(ordering_key(a_start, a_id, parent), ordering_key(b_start, b_id, parent), p.len() + 1 + i));
        },
        None => {
            assert(differs_first_at(ordering_key(a_start, a_id, parent), ordering_key(b_start, b_id, parent), i));
        },
    }
}

} // verus!
