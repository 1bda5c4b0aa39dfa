use vstd::prelude::*;
use vstd::string::StrSliceExecFns;
use vstd::string::StringExecFns;

verus! {

/// A recognized line is kept in the assembled output only when its character
/// count exceeds this threshold: single-character lines are judged to be
/// unreliable detections and are discarded.
pub const MIN_LINE_CHARS: usize = 1;

/// Whether one recognition result contributes text to the assembled output:
/// recognition must have produced a line, and the line's text must be longer
/// than `min_chars` characters.
pub open spec fn line_kept(line: Option<Seq<char>>, min_chars: usize) -> bool {
    line matches Some(t) && t.len() > min_chars
}

/// The filter applied to one recognition result: the line's text when it is
/// kept, nothing otherwise.
pub open spec fn kept_text(line: Option<Seq<char>>, min_chars: usize) -> Option<Seq<char>> {
    if line_kept(line, min_chars) {
        Some(line->0)
    } else {
        None
    }
}

/// The texts that survive the assembly filter, in input order: absent
/// recognition results are skipped, and so is every line whose text has
/// `min_chars` characters or fewer.
pub open spec fn kept_texts(lines: Seq<Option<Seq<char>>>, min_chars: usize) -> Seq<Seq<char>> {
    lines.filter_map(|line: Option<Seq<char>>| kept_text(line, min_chars))
}

/// The texts joined in order with a single space between adjacent texts.
pub open spec fn joined(texts: Seq<Seq<char>>) -> Seq<char>
    decreases texts.len(),
{
    if texts.len() == 0 {
        Seq::empty()
    } else if texts.len() == 1 {
        texts[0]
    } else {
        joined(texts.drop_last()) + seq![' '] + texts.last()
    }
}

/// The assembled output: the kept texts, joined with single spaces.
pub open spec fn assembled(lines: Seq<Option<Seq<char>>>, min_chars: usize) -> Seq<char> {
    joined(kept_texts(lines, min_chars))
}

/// Assemble the final text from the per-line recognition results: skip
/// absent results, drop every text of `min_chars` characters or fewer, and
/// join the remainder in order with single spaces.
pub fn assemble_lines(lines: &Vec<Option<String>>, min_chars: usize) -> (r: String)
    ensures
        r@ == assembled(lines.deep_view(), min_chars),
{
    let ghost all = lines.deep_view();
    proof {
        assert(all.len() == lines@.len());
    }
    let mut out = String::new();
    let mut any_kept = false;
    let mut i: usize = 0;
    while i < lines.len()
        invariant
            0 <= i <= lines@.len(),
            all == lines.deep_view(),
            all.len() == lines@.len(),
            any_kept == (kept_texts(all.take(i as int), min_chars).len() != 0),
            out@ == joined(kept_texts(all.take(i as int), min_chars)),
        decreases lines@.len() - i,
    {
        proof {
            assert(all[i as int] == lines@[i as int].deep_view());
            Seq::lemma_filter_map_take_succ(
                all,
                |line: Option<Seq<char>>| kept_text(line, min_chars),
                i as int,
            );
        }
        let ghost prev = kept_texts(all.take(i as int), min_chars);
        match &lines[i] {
            Some(text) => {
                if text.as_str().unicode_len() > min_chars {
                    proof {
                        assert(kept_text(all[i as int], min_chars) == Some(text@));
                        assert(kept_texts(all.take(i as int + 1), min_chars) =~= prev + seq![
                            text@,
                        ]);
                        lemma_joined_push(prev, text@);
                        assert(prev.push(text@) =~= prev + seq![text@]);
                    }
                    proof {
                        reveal_strlit(" ");
                        assert(" "@ =~= seq![' ']);
                    }
                    let ghost out_before = out@;
                    if any_kept {
                        out.append(" ");
                    }
                    out.append(text.as_str());
                    any_kept = true;
                    proof {
                        if prev.len() == 0 {
                            assert(out_before =~= Seq::<char>::empty());
                            assert(out@ =~= text@);
                            assert(joined(prev + seq![text@]) == text@) by {
                                assert(prev + seq![text@] =~= seq![text@]);
                            }
                        } else {
                            assert(out@ =~= joined(prev) + seq![' '] + text@);
                        }
                    }
                } else {
                    proof {
                        assert(kept_text(all[i as int], min_chars) is None);
                        assert(kept_texts(all.take(i as int + 1), min_chars) =~= prev);
                    }
                }
            },
            None => {
                proof {
                    assert(kept_text(all[i as int], min_chars) is None);
                    assert(kept_texts(all.take(i as int + 1), min_chars) =~= prev);
                }
            },
        }
        i = i + 1;
    }
    proof {
        assert(all.take(lines@.len() as int) =~= all);
    }
    out
}

/// Law: the assembled output excludes every short line — each text that
/// survives the assembly filter is longer than `min_chars` characters.
pub proof fn lemma_kept_texts_exclude_short(lines: Seq<Option<Seq<char>>>, min_chars: usize)
    ensures
        forall|i: int|
            0 <= i < kept_texts(lines, min_chars).len() ==> #[trigger] kept_texts(
                lines,
                min_chars,
            )[i].len() > min_chars,
    decreases lines.len(),
{
    if lines.len() > 0 {
        let rest = lines.drop_last();
        lemma_kept_texts_exclude_short(rest, min_chars);
        let tail = kept_text(lines.last(), min_chars);
        if tail is Some {
            assert(kept_texts(lines, min_chars) == kept_texts(rest, min_chars) + seq![tail->0]);
        } else {
            assert(kept_texts(lines, min_chars) == kept_texts(rest, min_chars));
        }
    }
}

/// The assembly filter passes a sequence of already-kept texts through
/// unchanged when each is long enough to be kept.
proof fn lemma_kept_texts_of_kept(texts: Seq<Seq<char>>, min_chars: usize)
    requires
        forall|i: int| 0 <= i < texts.len() ==> #[trigger] texts[i].len() > min_chars,
    ensures
        kept_texts(texts.map_values(|t: Seq<char>| Some(t)), min_chars) =~= texts,
    decreases texts.len(),
{
    let mapped = texts.map_values(|t: Seq<char>| Some(t));
    if texts.len() > 0 {
        let rest = texts.drop_last();
        lemma_kept_texts_of_kept(rest, min_chars);
        assert(mapped.drop_last() =~= rest.map_values(|t: Seq<char>| Some(t)));
        assert(texts.last().len() > min_chars);
        assert(kept_text(mapped.last(), min_chars) == Some(texts.last()));
        assert(kept_texts(mapped, min_chars) == kept_texts(mapped.drop_last(), min_chars) + seq![
            texts.last(),
        ]);
    } else {
        assert(mapped =~= Seq::<Option<Seq<char>>>::empty());
    }
}

/// Law: assembly is idempotent — re-running assembly on the texts that
/// survived the filter, each wrapped again as a present recognition result,
/// yields the same output as assembling the original lines.
pub proof fn lemma_assembly_idempotent(lines: Seq<Option<Seq<char>>>, min_chars: usize)
    ensures
        assembled(kept_texts(lines, min_chars).map_values(|t: Seq<char>| Some(t)), min_chars)
            == assembled(lines, min_chars),
{
    lemma_kept_texts_exclude_short(lines, min_chars);
    lemma_kept_texts_of_kept(kept_texts(lines, min_chars), min_chars);
}

/// Law: assembly preserves line order — the texts kept from an input's first
/// part precede, unchanged, the texts kept from the remainder, so permuting
/// the input lines permutes the output texts identically.
pub proof fn lemma_kept_texts_append(
    first: Seq<Option<Seq<char>>>,
    rest: Seq<Option<Seq<char>>>,
    min_chars: usize,
)
    ensures
        kept_texts(first + rest, min_chars) =~= kept_texts(first, min_chars) + kept_texts(
            rest,
            min_chars,
        ),
    decreases rest.len(),
{
    if rest.len() == 0 {
        assert(first + rest =~= first);
        assert(kept_texts(rest, min_chars) =~= Seq::<Seq<char>>::empty());
    } else {
        lemma_kept_texts_append(first, rest.drop_last(), min_chars);
        assert((first + rest).drop_last() =~= first + rest.drop_last());
        assert((first + rest).last() == rest.last());
    }
}

/// Whether `idx` maps the positions of the assembled texts back onto the
/// lines they came from: strictly increasing input positions, each holding a
/// kept line with the matching text, covering every kept line.
pub open spec fn kept_index_map(
    lines: Seq<Option<Seq<char>>>,
    min_chars: usize,
    idx: Seq<int>,
) -> bool {
    &&& idx.len() == kept_texts(lines, min_chars).len()
    &&& (forall|k: int, l: int| 0 <= k < l < idx.len() ==> #[trigger] idx[k] < #[trigger] idx[l])
    &&& (forall|k: int| 0 <= k < idx.len() ==> 0 <= #[trigger] idx[k] < lines.len())
    &&& (forall|k: int|
        0 <= k < idx.len() ==> line_kept(lines[#[trigger] idx[k]], min_chars) && kept_texts(
            lines,
            min_chars,
        )[k] == lines[idx[k]]->0)
    &&& (forall|j: int|
        0 <= j < lines.len() && line_kept(#[trigger] lines[j], min_chars) ==> exists|k: int|
            0 <= k < idx.len() && idx[k] == j)
}

/// Law: assembly is an order-preserving map over the line sequence — some
/// strictly increasing map carries each output position to the input line it
/// came from and covers every kept line, so the output texts are exactly the
/// kept lines' texts in input order, and reordering the input lines reorders
/// the output texts identically.
pub proof fn lemma_kept_texts_order_preserving(lines: Seq<Option<Seq<char>>>, min_chars: usize)
    ensures
        exists|idx: Seq<int>| kept_index_map(lines, min_chars, idx),
    decreases lines.len(),
{
    if lines.len() == 0 {
        let idx = Seq::<int>::empty();
        assert(kept_texts(lines, min_chars) =~= Seq::<Seq<char>>::empty());
        assert(kept_index_map(lines, min_chars, idx));
    } else {
        let rest = lines.drop_last();
        let last = lines.last();
        lemma_kept_texts_order_preserving(rest, min_chars);
        let idx_rest = choose|idx: Seq<int>| kept_index_map(rest, min_chars, idx);
        assert(forall|k: int|
            0 <= k < idx_rest.len() ==> lines[#[trigger] idx_rest[k]] == rest[idx_rest[k]]);
        if line_kept(last, min_chars) {
            let idx = idx_rest.push(lines.len() - 1);
            assert(kept_texts(lines, min_chars) == kept_texts(rest, min_chars) + seq![
                kept_text(last, min_chars)->0,
            ]);
            assert(forall|k: int| 0 <= k < idx_rest.len() ==> #[trigger] idx[k] == idx_rest[k]);
            assert(idx[idx.len() - 1] == lines.len() - 1);
            assert(forall|j: int|
                0 <= j < lines.len() && line_kept(#[trigger] lines[j], min_chars)
                    ==> exists|k: int| 0 <= k < idx.len() && idx[k] == j) by {
                assert forall|j: int|
                    0 <= j < lines.len() && line_kept(lines[j], min_chars) implies exists|k: int|
                    0 <= k < idx.len() && idx[k] == j by {
                    if j < lines.len() - 1 {
                        assert(rest[j] == lines[j]);
                        let k = choose|k: int| 0 <= k < idx_rest.len() && idx_rest[k] == j;
                        assert(0 <= k < idx.len() && idx[k] == j);
                    } else {
                        let k = idx.len() - 1;
                        assert(0 <= k < idx.len() && idx[k] == j);
                    }
                }
            }
            assert(kept_index_map(lines, min_chars, idx));
        } else {
            let idx = idx_rest;
            assert(kept_texts(lines, min_chars) == kept_texts(rest, min_chars));
            assert(forall|j: int|
                0 <= j < lines.len() && line_kept(#[trigger] lines[j], min_chars)
                    ==> exists|k: int| 0 <= k < idx.len() && idx[k] == j) by {
                assert forall|j: int|
                    0 <= j < lines.len() && line_kept(lines[j], min_chars) implies exists|k: int|
                    0 <= k < idx.len() && idx[k] == j by {
                    assert(j < lines.len() - 1);
                    assert(rest[j] == lines[j]);
                    let k = choose|k: int| 0 <= k < idx.len() && idx[k] == j;
                    assert(0 <= k < idx.len() && idx[k] == j);
                }
            }
            assert(kept_index_map(lines, min_chars, idx));
        }
    }
}

/// Joining one more text appends a space and the text, unless nothing was
/// joined before it.
proof fn lemma_joined_push(texts: Seq<Seq<char>>, text: Seq<char>)
    ensures
        joined(texts.push(text)) == if texts.len() == 0 {
            text
        } else {
            (joined(texts) + seq![' '] + text)
        },
{
    let pushed = texts.push(text);
    assert(pushed.last() == text);
    assert(pushed.drop_last() =~= texts);
    if texts.len() == 0 {
        assert(joined(pushed) == text);
    }
}

} // verus!
