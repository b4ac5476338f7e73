use vstd::prelude::*;

use crate::decode::{apply_pair, decoded, is_key, KittyErrorKind};
use crate::kitty::{default_kitty, Kitty};

verus! {

/// Whether `a` and `b` agree in the field (or fields) that `key` sets.
pub open spec fn same_field(a: Kitty, b: Kitty, key: char) -> bool {
    match key {
        'a' => a.action == b.action,
        'f' => a.format == b.format,
        't' => a.medium == b.medium,
        's' => a.width == b.width,
        'v' => a.height == b.height,
        'S' => a.size == b.size,
        'O' => a.offset == b.offset,
        'i' => a.id == b.id,
        'o' => a.compression == b.compression,
        'm' => a.chunked == b.chunked,
        'x' => a.x_pos == b.x_pos,
        'y' => a.y_pos == b.y_pos,
        'w' => a.x_size == b.x_size,
        'h' => a.y_size == b.y_size,
        'X' => a.x_offset == b.x_offset,
        'Y' => a.y_offset == b.y_offset,
        'c' => a.columns == b.columns,
        'r' => a.rows == b.rows,
        'z' => a.z_index == b.z_index,
        'd' => a.delete == b.delete && a.free == b.free,
        _ => true,
    }
}

/// Applying a pair changes no field but the one its key names.
pub proof fn lemma_pair_keeps_other_fields(k: Kitty, key: char, v: Seq<char>, other: char)
    requires
        apply_pair(k, key, v) is Ok,
        other != key,
    ensures
        same_field(apply_pair(k, key, v)->Ok_0, k, other),
{
}

/// A field whose key does not occur among the pairs keeps its default value in the
/// decoded command.
pub proof fn lemma_absent_key_keeps_default(pairs: Seq<(char, Seq<char>)>, key: char)
    requires
        decoded(pairs) is Ok,
        forall|j: int| 0 <= j < pairs.len() ==> (#[trigger] pairs[j]).0 != key,
    ensures
        same_field(decoded(pairs)->Ok_0, default_kitty(), key),
    decreases pairs.len(),
{
    if pairs.len() > 0 {
        let init = pairs.drop_last();
        assert forall|j: int| 0 <= j < init.len() implies (#[trigger] init[j]).0 != key by {
            assert(init[j] == pairs[j]);
        }
        lemma_absent_key_keeps_default(init, key);
        let (k2, v) = pairs.last();
        lemma_pair_keeps_other_fields(decoded(init)->Ok_0, k2, v, key);
    }
}

/// With no pairs at all, the decoded command is the default command.
pub proof fn lemma_empty_decodes_to_default()
    ensures
        decoded(Seq::<(char, Seq<char>)>::empty()) == Ok::<
            Kitty,
            (KittyErrorKind, char, Seq<char>),
        >(default_kitty()),
{
}

/// A pair whose key names no field makes the whole decode fail; where every pair before
/// it was accepted, the error is `UnknownKey` for that pair.
pub proof fn lemma_unknown_key_rejected(pairs: Seq<(char, Seq<char>)>, j: int)
    requires
        0 <= j < pairs.len(),
        !is_key(pairs[j].0),
    ensures
        decoded(pairs) is Err,
        decoded(pairs.take(j)) is Ok ==> decoded(pairs) == Err::<
            Kitty,
            (KittyErrorKind, char, Seq<char>),
        >((KittyErrorKind::UnknownKey, pairs[j].0, pairs[j].1)),
    decreases pairs.len(),
{
    if j + 1 < pairs.len() {
        let init = pairs.drop_last();
        assert(init[j] == pairs[j]);
        assert(init.take(j) =~= pairs.take(j));
        lemma_unknown_key_rejected(init, j);
    } else {
        assert(pairs.drop_last() =~= pairs.take(j));
    }
}

/// When a key is given twice, the later value wins: applying an accepted pair and then a
/// second pair with the same key gives what the second pair alone gives.
pub proof fn lemma_later_pair_overrides(k: Kitty, key: char, v1: Seq<char>, v2: Seq<char>)
    requires
        apply_pair(k, key, v1) is Ok,
    ensures
        apply_pair(apply_pair(k, key, v1)->Ok_0, key, v2) == apply_pair(k, key, v2),
{
}

} // verus!
