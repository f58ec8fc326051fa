//! Properties that hold of the library as a whole, proved over the
//! specifications that the functions' contracts use.
use vstd::prelude::*;
use crate::text::{byte_len, is_space, join, lemma_byte_len_concat, words, words_from};
use crate::display::{
    aviation_disclaimer, current_line, entry_separator, indent, pack_fold, packed_lines,
    report_lines, wrap_all, wrap_words, wrapped_lines,
};
use crate::model::{HourlyForecastEntry, ReportView};
use crate::config::chosen_location;
use crate::cli::{cli_lines, chosen_display, hours_after, parsed_u8, shown_report, DisplayChoice};
use crate::fields::{temperature_text, weekday_text};
use crate::display::{daily_entry_text, hilo_text, template_value};
use crate::model::DailyForecastEntry;
use crate::weather_api::open_meteo::{daily_entries_of, DailyReadings};
use crate::pattern::three_or_four_alphanumerics;
use crate::weather_api::{looks_like_aviation_id, routed_provider, WeatherApiProvider};

verus! {

/// Whether `w` is a word: non-empty and free of white space.
pub open spec fn is_word(w: Seq<char>) -> bool {
    w.len() > 0 && forall|k: int| 0 <= k < w.len() ==> !is_space(#[trigger] w[k])
}

/// The words of all lines, line after line.
pub open spec fn words_of_lines(lines: Seq<Seq<char>>) -> Seq<Seq<char>>
    decreases lines.len(),
{
    if lines.len() == 0 {
        seq![]
    } else {
        words_of_lines(lines.drop_last()) + words(lines.last())
    }
}

proof fn lemma_words_from_word(w: Seq<char>, cur: Seq<char>)
    requires
        forall|k: int| 0 <= k < w.len() ==> !is_space(#[trigger] w[k]),
        cur.len() + w.len() > 0,
    ensures
        words_from(w, cur) == seq![cur + w],
    decreases w.len(),
{
    if w.len() == 0 {
        assert(cur + w =~= cur);
    } else {
        assert(!is_space(w[0]));
        assert(cur.push(w[0]) + w.drop_first() =~= cur + w);
        lemma_words_from_word(w.drop_first(), cur.push(w[0]));
    }
}

proof fn lemma_words_of_word(w: Seq<char>)
    requires
        is_word(w),
    ensures
        words(w) == seq![w],
{
    lemma_words_from_word(w, seq![]);
    assert(Seq::<char>::empty() + w =~= w);
}

proof fn lemma_words_from_split(a: Seq<char>, sp: char, b: Seq<char>, cur: Seq<char>)
    requires
        is_space(sp),
    ensures
        words_from(a + seq![sp] + b, cur) == words_from(a, cur) + words_from(b, seq![]),
    decreases a.len(),
{
    let s = a + seq![sp] + b;
    if a.len() == 0 {
        assert(s =~= seq![sp] + b);
        assert(s.drop_first() =~= b);
        if cur.len() > 0 {
        } else {
            assert(Seq::<Seq<char>>::empty() + words_from(b, seq![]) =~= words_from(b, seq![]));
        }
    } else {
        assert(s.drop_first() =~= a.drop_first() + seq![sp] + b);
        assert(s[0] == a[0]);
        if is_space(a[0]) {
            lemma_words_from_split(a.drop_first(), sp, b, seq![]);
            let f = if cur.len() > 0 {
                seq![cur]
            } else {
                Seq::<Seq<char>>::empty()
            };
            assert(f + (words_from(a.drop_first(), seq![]) + words_from(b, seq![])) =~= (f
                + words_from(a.drop_first(), seq![])) + words_from(b, seq![]));
        } else {
            lemma_words_from_split(a.drop_first(), sp, b, cur.push(a[0]));
        }
    }
}

proof fn lemma_words_join(a: Seq<char>, w: Seq<char>)
    requires
        is_word(w),
    ensures
        words(a + seq![' '] + w) == words(a) + seq![w],
{
    lemma_words_from_split(a, ' ', w, seq![]);
    lemma_words_of_word(w);
}

proof fn lemma_words_indent(w: Seq<char>)
    requires
        is_word(w),
    ensures
        words(indent() + w) == seq![w],
{
    let e = Seq::<char>::empty();
    lemma_words_of_word(w);
    lemma_words_from_split(e, ' ', w, e);
    assert(e + seq![' '] + w =~= seq![' '] + w);
    lemma_words_from_split(e, ' ', seq![' '] + w, e);
    assert(e + seq![' '] + (seq![' '] + w) =~= seq![' ', ' '] + w);
    lemma_words_from_split(e, ' ', seq![' ', ' '] + w, e);
    assert(e + seq![' '] + (seq![' ', ' '] + w) =~= seq![' ', ' ', ' '] + w);
    lemma_words_from_split(e, ' ', seq![' ', ' ', ' '] + w, e);
    assert(e + seq![' '] + (seq![' ', ' ', ' '] + w) =~= indent() + w);
    assert(words_from(e, e) =~= Seq::<Seq<char>>::empty());
    assert(Seq::<Seq<char>>::empty() + seq![w] =~= seq![w]);
}

proof fn lemma_words_from_are_words(s: Seq<char>, cur: Seq<char>)
    requires
        forall|k: int| 0 <= k < cur.len() ==> !is_space(#[trigger] cur[k]),
    ensures
        forall|i: int| 0 <= i < words_from(s, cur).len() ==> is_word(#[trigger] words_from(s, cur)[i]),
    decreases s.len(),
{
    if s.len() == 0 {
        if cur.len() > 0 {
            assert(words_from(s, cur) == seq![cur]);
            assert(is_word(cur));
            assert forall|i: int| 0 <= i < words_from(s, cur).len() implies is_word(#[trigger] words_from(s, cur)[i]) by {
                assert(words_from(s, cur)[i] == cur);
            }
        } else {
            assert(words_from(s, cur) =~= Seq::<Seq<char>>::empty());
        }
    } else if is_space(s[0]) {
        lemma_words_from_are_words(s.drop_first(), seq![]);
        let f = if cur.len() > 0 {
            seq![cur]
        } else {
            Seq::<Seq<char>>::empty()
        };
        let r = words_from(s.drop_first(), seq![]);
        assert(words_from(s, cur) == f + r);
        assert forall|i: int| 0 <= i < (f + r).len() implies is_word(#[trigger] (f + r)[i]) by {
            if i < f.len() {
                assert((f + r)[i] == cur);
            } else {
                assert((f + r)[i] == r[i - f.len()]);
            }
        }
    } else {
        let c2 = cur.push(s[0]);
        assert(words_from(s, cur) == words_from(s.drop_first(), c2));
        assert forall|k: int| 0 <= k < c2.len() implies !is_space(#[trigger] c2[k]) by {
            if k < cur.len() {
                assert(c2[k] == cur[k]);
            }
        }
        lemma_words_from_are_words(s.drop_first(), c2);
    }
}

/// Every word of a text is non-empty and free of white space.
pub proof fn lemma_words_are_words(s: Seq<char>)
    ensures
        forall|i: int| 0 <= i < words(s).len() ==> is_word(#[trigger] words(s)[i]),
{
    lemma_words_from_are_words(s, seq![]);
}

proof fn lemma_wrap_keeps_words(ws: Seq<Seq<char>>, limit: nat)
    requires
        forall|i: int| 0 <= i < ws.len() ==> is_word(#[trigger] ws[i]),
    ensures
        words_of_lines(wrap_words(ws, limit).0) + words(wrap_words(ws, limit).1) == ws,
    decreases ws.len(),
{
    if ws.len() == 0 {
        assert(words(Seq::<char>::empty()) =~= Seq::<Seq<char>>::empty());
        assert(words_of_lines(Seq::<Seq<char>>::empty()) + Seq::<Seq<char>>::empty() =~= ws);
    } else {
        let prev = ws.drop_last();
        lemma_wrap_keeps_words(prev, limit);
        let st = wrap_words(prev, limit);
        let lines = st.0;
        let cur = st.1;
        let w = ws.last();
        assert(is_word(w));
        lemma_words_of_word(w);
        lemma_words_indent(w);
        lemma_words_join(cur, w);
        let e = Seq::<Seq<char>>::empty();
        if cur.len() == 0 {
            assert(words(cur) =~= e) by {
                assert(cur =~= Seq::<char>::empty());
            }
        }
        let proposed = if cur.len() == 0 {
            w
        } else {
            cur + seq![' '] + w
        };
        assert(words(proposed) == words(cur) + seq![w]) by {
            if cur.len() == 0 {
                assert(e + seq![w] =~= seq![w]);
            }
        }
        if byte_len(proposed) > limit {
            if cur.len() > 0 {
                assert(lines.push(cur).drop_last() =~= lines);
            }
        }
        assert(prev.push(w) =~= ws);
        assert(words_of_lines(wrap_words(ws, limit).0) + words(wrap_words(ws, limit).1) =~= ws);
    }
}

/// Wrapping drops no word: the words of the wrapped lines, in order, are the
/// words of the text.
pub proof fn law_wrap_keeps_every_word(text: Seq<char>, limit: nat)
    ensures
        words_of_lines(wrapped_lines(text, limit)) == words(text),
{
    if byte_len(text) <= limit {
        let one = seq![text];
        assert(wrapped_lines(text, limit) == one);
        assert(one.drop_last() =~= Seq::<Seq<char>>::empty());
        assert(one.last() == text);
        assert(words_of_lines(Seq::<Seq<char>>::empty()) == Seq::<Seq<char>>::empty());
        assert(words_of_lines(one) == words_of_lines(one.drop_last()) + words(one.last()));
        assert(Seq::<Seq<char>>::empty() + words(text) =~= words(text));
    } else {
        lemma_words_are_words(text);
        lemma_wrap_keeps_words(words(text), limit);
        let st = wrap_words(words(text), limit);
        if st.1.len() > 0 {
            assert(st.0.push(st.1).drop_last() =~= st.0);
            assert(st.0.push(st.1).last() == st.1);
            assert(wrapped_lines(text, limit) == st.0.push(st.1));
        } else {
            assert(wrapped_lines(text, limit) == st.0);
            assert(words(st.1) =~= Seq::<Seq<char>>::empty()) by {
                assert(st.1 =~= Seq::<char>::empty());
            }
            assert(words_of_lines(st.0) + Seq::<Seq<char>>::empty() =~= words_of_lines(st.0));
        }
    }
}

/// Whether `line` begins with the four-space indent.
pub open spec fn is_indented(line: Seq<char>) -> bool {
    line.len() >= 4 && line.subrange(0, 4) == indent()
}

/// Whether a wrapped line fits in `limit` bytes or holds one over-long word
/// of `ws` alone, bare or after the indent.
pub open spec fn fits_or_lone_word(line: Seq<char>, ws: Seq<Seq<char>>, limit: nat) -> bool {
    byte_len(line) <= limit || exists|i: int|
        0 <= i < ws.len() && (line == #[trigger] ws[i] || line == indent() + ws[i])
}

/// Whether `line` begins with `w`.
pub open spec fn starts_with(line: Seq<char>, w: Seq<char>) -> bool {
    w.len() <= line.len() && line.subrange(0, w.len() as int) == w
}

/// The first line of a wrapping state: the first finished line, else the
/// line being built.
pub open spec fn first_line(st: (Seq<Seq<char>>, Seq<char>)) -> Seq<char> {
    if st.0.len() > 0 {
        st.0[0]
    } else {
        st.1
    }
}

proof fn lemma_wrap_shape(ws: Seq<Seq<char>>, all: Seq<Seq<char>>, limit: nat)
    requires
        ws.len() <= all.len(),
        forall|i: int| 0 <= i < ws.len() ==> #[trigger] ws[i] == all[i],
    ensures
        ({
            let st = wrap_words(ws, limit);
            &&& st.0.len() > 0 ==> is_indented(st.1)
            &&& forall|i: int| 1 <= i < st.0.len() ==> is_indented(#[trigger] st.0[i])
            &&& forall|i: int| 0 <= i < st.0.len() ==> fits_or_lone_word(#[trigger] st.0[i], all, limit)
            &&& forall|i: int| 0 <= i < st.0.len() ==> #[trigger] st.0[i].len() > 0
            &&& fits_or_lone_word(st.1, all, limit)
            &&& ws.len() > 0 ==> starts_with(first_line(st), all[0])
        }),
    decreases ws.len(),
{
    if ws.len() == 0 {
        assert(byte_len(Seq::<char>::empty()) == 0);
    } else {
        let prev = ws.drop_last();
        assert forall|i: int| 0 <= i < prev.len() implies #[trigger] prev[i] == all[i] by {
            assert(prev[i] == ws[i]);
        }
        lemma_wrap_shape(prev, all, limit);
        let st = wrap_words(prev, limit);
        let lines = st.0;
        let cur = st.1;
        let w = ws.last();
        assert(ws[ws.len() - 1] == w);
        let j = ws.len() - 1;
        assert(ws[j] == all[j]);
        let proposed = if cur.len() == 0 {
            w
        } else {
            cur + seq![' '] + w
        };
        assert(fits_or_lone_word(indent() + w, all, limit)) by {
            assert(indent() + all[j] == indent() + w);
        }
        assert(fits_or_lone_word(w, all, limit)) by {
            assert(all[j] == w);
        }
        if prev.len() == 0 {
            assert(w == all[0]);
            assert(w.subrange(0, w.len() as int) =~= w);
        } else if lines.len() == 0 && cur.len() > 0 {
            assert(proposed.subrange(0, all[0].len() as int) =~= cur.subrange(0, all[0].len() as int));
        } else if lines.len() == 0 {
            assert(all[0].len() == 0);
            assert(proposed.subrange(0, 0) =~= all[0]);
            assert((indent() + w).subrange(0, 0) =~= all[0]);
        }
        assert(is_indented(indent() + w)) by {
            assert((indent() + w).subrange(0, 4) =~= indent());
        }
        if cur.len() > 0 && is_indented(cur) {
            assert(is_indented(proposed)) by {
                assert(proposed.subrange(0, 4) =~= cur.subrange(0, 4));
            }
        }
        if cur.len() > 0 && byte_len(proposed) > limit {
            {
                let l2 = lines.push(cur);
                if lines.len() > 0 {
                    assert(l2[0] == lines[0]);
                }
                assert forall|i: int| 1 <= i < l2.len() implies is_indented(#[trigger] l2[i]) by {
                    if i < lines.len() {
                        assert(l2[i] == lines[i]);
                    }
                }
                assert forall|i: int| 0 <= i < l2.len() implies fits_or_lone_word(#[trigger] l2[i], all, limit) by {
                    if i < lines.len() {
                        assert(l2[i] == lines[i]);
                    }
                }
                assert forall|i: int| 0 <= i < l2.len() implies #[trigger] l2[i].len() > 0 by {
                    if i < lines.len() {
                        assert(l2[i] == lines[i]);
                    }
                }
            }
        }
    }
}

/// A text too long for one line is wrapped starting with its first word:
/// the first line is not indented and begins with no white space.
pub proof fn law_wrap_first_line_begins_with_first_word(text: Seq<char>, limit: nat)
    requires
        byte_len(text) > limit,
        words(text).len() > 0,
    ensures
        wrapped_lines(text, limit).len() > 0,
        starts_with(wrapped_lines(text, limit)[0], words(text)[0]),
        !is_space(wrapped_lines(text, limit)[0][0]),
{
    let ws = words(text);
    lemma_wrap_shape(ws, ws, limit);
    lemma_words_are_words(text);
    assert(is_word(ws[0]));
    let st = wrap_words(ws, limit);
    let l = wrapped_lines(text, limit);
    let f = first_line(st);
    assert(f.subrange(0, ws[0].len() as int)[0] == ws[0][0]);
    if st.0.len() > 0 {
        if st.1.len() > 0 {
            assert(l[0] == st.0.push(st.1)[0]);
        }
        assert(l[0] == f);
    } else {
        assert(f.len() > 0);
        assert(l[0] == f);
    }
}

/// Every wrapped line after the first begins with a four-space indent.
pub proof fn law_wrap_indents_continued_lines(text: Seq<char>, limit: nat)
    ensures
        forall|i: int|
            1 <= i < wrapped_lines(text, limit).len() ==> is_indented(
                #[trigger] wrapped_lines(text, limit)[i],
            ),
{
    if byte_len(text) > limit {
        let ws = words(text);
        lemma_wrap_shape(ws, ws, limit);
        let st = wrap_words(ws, limit);
        if st.1.len() > 0 {
            let l2 = st.0.push(st.1);
            assert forall|i: int| 1 <= i < l2.len() implies is_indented(#[trigger] l2[i]) by {
                if i < st.0.len() {
                    assert(l2[i] == st.0[i]);
                }
            }
        }
    }
}

/// Every wrapped line fits in the limit, unless it is a single word too long
/// to fit, shown alone (after the indent, unless it is the first line).
pub proof fn law_wrap_respects_limit(text: Seq<char>, limit: nat)
    ensures
        forall|i: int|
            0 <= i < wrapped_lines(text, limit).len() ==> fits_or_lone_word(
                #[trigger] wrapped_lines(text, limit)[i],
                words(text),
                limit,
            ),
{
    if byte_len(text) > limit {
        let ws = words(text);
        lemma_wrap_shape(ws, ws, limit);
        let st = wrap_words(ws, limit);
        if st.1.len() > 0 {
            let l2 = st.0.push(st.1);
            assert forall|i: int| 0 <= i < l2.len() implies fits_or_lone_word(#[trigger] l2[i], ws, limit) by {
                if i < st.0.len() {
                    assert(l2[i] == st.0[i]);
                }
            }
        }
    }
}


proof fn lemma_join_push(l: Seq<Seq<char>>, y: Seq<char>, sep: Seq<char>)
    requires
        l.len() > 0,
    ensures
        join(l.push(y), sep) == join(l, sep) + sep + y,
{
    assert(l.push(y).drop_last() =~= l);
}

proof fn lemma_join_extend_last(l: Seq<Seq<char>>, a: Seq<char>, sep: Seq<char>, e: Seq<char>)
    ensures
        join(l.push(a + sep + e), sep) == join(l.push(a), sep) + sep + e,
{
    if l.len() == 0 {
        assert(l.push(a + sep + e) =~= seq![a + sep + e]);
        assert(l.push(a) =~= seq![a]);
    } else {
        lemma_join_push(l, a + sep + e, sep);
        lemma_join_push(l, a, sep);
        assert(join(l, sep) + sep + (a + sep + e) =~= join(l, sep) + sep + a + sep + e);
    }
}

proof fn lemma_pack_keeps_text(es: Seq<Seq<char>>, limit: nat)
    requires
        es.len() > 0,
        forall|i: int| 0 <= i < es.len() ==> #[trigger] es[i].len() > 0,
    ensures
        pack_fold(es, limit).1.len() > 0,
        join(pack_fold(es, limit).0.push(pack_fold(es, limit).1), entry_separator()) == join(es, entry_separator()),
    decreases es.len(),
{
    let sep = entry_separator();
    let prev = es.drop_last();
    let e = es.last();
    assert(e == es[es.len() - 1]);
    if prev.len() == 0 {
        assert(pack_fold(prev, limit) == (Seq::<Seq<char>>::empty(), Seq::<char>::empty()));
        assert(Seq::<Seq<char>>::empty().push(e) =~= seq![e]);
        assert(es =~= seq![e]);
    } else {
        assert forall|i: int| 0 <= i < prev.len() implies #[trigger] prev[i].len() > 0 by {
            assert(prev[i] == es[i]);
        }
        lemma_pack_keeps_text(prev, limit);
        let st = pack_fold(prev, limit);
        let l = st.0;
        let cur = st.1;
        lemma_join_push(prev, e, sep);
        assert(prev.push(e) =~= es);
        if byte_len(cur) + 3 + byte_len(e) <= limit {
            lemma_join_extend_last(l, cur, sep, e);
        } else {
            lemma_join_push(l.push(cur), e, sep);
        }
    }
}

/// Packing forecast entries into lines loses and reorders nothing: the lines
/// joined by ` | ` read exactly as the entries joined by ` | `.
pub proof fn law_pack_keeps_entries(es: Seq<Seq<char>>, limit: nat)
    requires
        forall|i: int| 0 <= i < es.len() ==> #[trigger] es[i].len() > 0,
    ensures
        join(packed_lines(es, limit), entry_separator()) == join(es, entry_separator()),
{
    if es.len() > 0 {
        lemma_pack_keeps_text(es, limit);
    }
}

/// Whether a packed line fits in `limit` bytes or is one entry of `es`.
pub open spec fn fits_or_lone_entry(line: Seq<char>, es: Seq<Seq<char>>, limit: nat) -> bool {
    byte_len(line) <= limit || exists|i: int| 0 <= i < es.len() && line == #[trigger] es[i]
}

proof fn lemma_pack_shape(es: Seq<Seq<char>>, all: Seq<Seq<char>>, limit: nat)
    requires
        es.len() <= all.len(),
        forall|i: int| 0 <= i < es.len() ==> #[trigger] es[i] == all[i],
    ensures
        forall|i: int| 0 <= i < pack_fold(es, limit).0.len() ==> fits_or_lone_entry(
            #[trigger] pack_fold(es, limit).0[i],
            all,
            limit,
        ),
        fits_or_lone_entry(pack_fold(es, limit).1, all, limit),
    decreases es.len(),
{
    if es.len() == 0 {
        assert(byte_len(Seq::<char>::empty()) == 0);
    } else {
        let prev = es.drop_last();
        assert forall|i: int| 0 <= i < prev.len() implies #[trigger] prev[i] == all[i] by {
            assert(prev[i] == es[i]);
        }
        lemma_pack_shape(prev, all, limit);
        let st = pack_fold(prev, limit);
        let l = st.0;
        let cur = st.1;
        let j = es.len() - 1;
        let e = es.last();
        assert(es[j] == all[j]);
        assert(fits_or_lone_entry(e, all, limit));
        lemma_byte_len_concat(cur, entry_separator());
        lemma_byte_len_concat(cur + entry_separator(), e);
        assert(byte_len(entry_separator()) == 3) by {
            reveal_with_fuel(byte_len, 4);
        }
        if cur.len() > 0 && byte_len(cur) + 3 + byte_len(e) > limit {
            let l2 = l.push(cur);
            assert forall|i: int| 0 <= i < l2.len() implies fits_or_lone_entry(#[trigger] l2[i], all, limit) by {
                if i < l.len() {
                    assert(l2[i] == l[i]);
                }
            }
        }
    }
}

/// Every packed line fits in the limit, unless it is a single entry too long
/// to share a line.
pub proof fn law_pack_respects_limit(es: Seq<Seq<char>>, limit: nat)
    ensures
        forall|i: int|
            0 <= i < packed_lines(es, limit).len() ==> fits_or_lone_entry(
                #[trigger] packed_lines(es, limit)[i],
                es,
                limit,
            ),
{
    if es.len() > 0 {
        lemma_pack_shape(es, es, limit);
        let st = pack_fold(es, limit);
        let l2 = st.0.push(st.1);
        assert forall|i: int| 0 <= i < l2.len() implies fits_or_lone_entry(#[trigger] l2[i], es, limit) by {
            if i < st.0.len() {
                assert(l2[i] == st.0[i]);
            }
        }
    }
}


proof fn lemma_words_of_lines_concat(a: Seq<Seq<char>>, b: Seq<Seq<char>>)
    ensures
        words_of_lines(a + b) == words_of_lines(a) + words_of_lines(b),
    decreases b.len(),
{
    if b.len() == 0 {
        assert(a + b =~= a);
        assert(words_of_lines(a) + Seq::<Seq<char>>::empty() =~= words_of_lines(a));
    } else {
        assert((a + b).drop_last() =~= a + b.drop_last());
        assert((a + b).last() == b.last());
        lemma_words_of_lines_concat(a, b.drop_last());
        assert(words_of_lines(a) + words_of_lines(b.drop_last()) + words(b.last()) =~= words_of_lines(
            a,
        ) + (words_of_lines(b.drop_last()) + words(b.last())));
    }
}

proof fn lemma_wrap_all_keeps_words(lines: Seq<Seq<char>>)
    ensures
        words_of_lines(wrap_all(lines)) == words_of_lines(lines),
    decreases lines.len(),
{
    if lines.len() > 0 {
        lemma_wrap_all_keeps_words(lines.drop_last());
        lemma_words_of_lines_concat(wrap_all(lines.drop_last()), wrapped_lines(lines.last(), 80));
        law_wrap_keeps_every_word(lines.last(), 80);
    }
}

proof fn lemma_words_of_one_line(l: Seq<char>)
    ensures
        words_of_lines(seq![l]) == words(l),
{
    assert(seq![l].drop_last() =~= Seq::<Seq<char>>::empty());
    assert(seq![l].last() == l);
    assert(words_of_lines(Seq::<Seq<char>>::empty()) == Seq::<Seq<char>>::empty());
    assert(Seq::<Seq<char>>::empty() + words(l) =~= words(l));
}

/// An aviation report drops no token of the METAR or the TAF: the words of
/// its lines, in order, are those of the METAR line, then (when the
/// forecast is shown and there is a TAF) those of the heading and of every
/// TAF time block, then those of the disclaimer.
pub proof fn law_aviation_output_keeps_every_token(
    r: ReportView,
    show_forecast: bool,
    show_hourly: bool,
    custom: Option<Seq<char>>,
)
    requires
        r.metar is Some,
    ensures
        ({
            let m = r.metar->0;
            let metar_words = words("📍"@ + m.station_id + " (METAR) "@ + m.raw);
            let taf_words = if show_forecast {
                match r.taf {
                    Some(t) => words("Forecast (TAF):"@) + words_of_lines(t.lines),
                    None => words("No TAF available for this station."@),
                }
            } else {
                seq![]
            };
            words_of_lines(report_lines(r, show_forecast, show_hourly, custom)) == metar_words
                + taf_words + words(aviation_disclaimer())
        }),
{
    let m = r.metar->0;
    let first = wrapped_lines("📍"@ + m.station_id + " (METAR) "@ + m.raw, 80);
    let middle = if show_forecast {
        match r.taf {
            Some(t) => seq!["Forecast (TAF):"@] + wrap_all(t.lines),
            None => seq!["No TAF available for this station."@],
        }
    } else {
        Seq::<Seq<char>>::empty()
    };
    let last = seq![aviation_disclaimer()];
    assert(report_lines(r, show_forecast, show_hourly, custom) == first + middle + last);
    lemma_words_of_lines_concat(first + middle, last);
    lemma_words_of_lines_concat(first, middle);
    law_wrap_keeps_every_word("📍"@ + m.station_id + " (METAR) "@ + m.raw, 80);
    lemma_words_of_one_line(aviation_disclaimer());
    if show_forecast {
        match r.taf {
            Some(t) => {
                lemma_words_of_lines_concat(seq!["Forecast (TAF):"@], wrap_all(t.lines));
                lemma_words_of_one_line("Forecast (TAF):"@);
                lemma_wrap_all_keeps_words(t.lines);
            },
            None => {
                lemma_words_of_one_line("No TAF available for this station."@);
            },
        }
    } else {
        assert(words_of_lines(Seq::<Seq<char>>::empty()) == Seq::<Seq<char>>::empty());
    }
}

/// A custom format never changes an aviation report.
pub proof fn law_aviation_ignores_custom_format(
    r: ReportView,
    show_forecast: bool,
    show_hourly: bool,
    c1: Option<Seq<char>>,
    c2: Option<Seq<char>>,
)
    requires
        r.metar is Some,
    ensures
        report_lines(r, show_forecast, show_hourly, c1) == report_lines(r, show_forecast, show_hourly, c2),
{
}

/// Without a custom format, or with an empty one, the current-weather line
/// is the built-in line.
pub proof fn law_no_custom_format_gives_default_line(r: ReportView, default: Seq<char>)
    ensures
        current_line(r, None, default) == default,
        current_line(r, Some(Seq::<char>::empty()), default) == default,
{
}

/// A location given on the command line is always the one used.
pub proof fn law_command_line_location_wins(
    cli: Seq<char>,
    default: Option<Seq<char>>,
    last: Option<Seq<char>>,
)
    ensures
        chosen_location(Some(cli), default, last) == Some(cli),
{
}

/// A five-digit zip code is never taken for an aviation identifier: it is
/// served by the provider asked for.
pub proof fn law_zip_code_keeps_provider(location: Seq<char>, requested: WeatherApiProvider)
    requires
        location.len() == 5,
        forall|i: int| 0 <= i < 5 ==> '0' <= #[trigger] location[i] <= '9',
    ensures
        !looks_like_aviation_id(location),
        routed_provider(requested, looks_like_aviation_id(location)) == requested,
{
}

/// Three or four ASCII letters or digits name an aviation station: a request
/// for Open-Meteo is served by NOAA's Aviation Weather Center instead.
pub proof fn law_station_code_goes_to_aviation_center(location: Seq<char>)
    requires
        three_or_four_alphanumerics(location),
    ensures
        looks_like_aviation_id(location),
        routed_provider(WeatherApiProvider::OpenMeteo, looks_like_aviation_id(location))
            == WeatherApiProvider::NoaaAwc,
{
}

/// After a location has been remembered, it is the one used next time no
/// location is given, unless a default location is configured.
pub proof fn law_remembered_location_is_used(default: Option<Seq<char>>, remembered: Seq<char>)
    ensures
        chosen_location(None, default, Some(remembered)) == match default {
            Some(d) => Some(d),
            None => Some(remembered),
        },
{
}

proof fn lemma_hours_after(hs: Seq<HourlyForecastEntry>, t: i64)
    ensures
        forall|i: int| 0 <= i < hours_after(hs, t).len() ==> #[trigger] hours_after(hs, t)[i].time > t,
    decreases hs.len(),
{
    if hs.len() > 0 {
        lemma_hours_after(hs.drop_last(), t);
        let prev = hours_after(hs.drop_last(), t);
        if hs.last().time > t {
            assert forall|i: int| 0 <= i < prev.push(hs.last()).len() implies #[trigger] prev.push(
                hs.last(),
            )[i].time > t by {
                if i < prev.len() {
                    assert(prev.push(hs.last())[i] == prev[i]);
                }
            }
        }
    }
}

/// When hours are asked for on the command line, only hours strictly after
/// the report's time are shown, and no more than asked for.
pub proof fn law_hourly_forecast_starts_after_now(r: ReportView, c: DisplayChoice)
    requires
        c.hourly_count is Some,
    ensures
        forall|i: int|
            0 <= i < shown_report(r, c).hourly_forecast.len() ==> #[trigger] shown_report(
                r,
                c,
            ).hourly_forecast[i].time > r.datetime,
        shown_report(r, c).hourly_forecast.len() <= c.hourly_count->0,
{
    lemma_hours_after(r.hourly_forecast, r.datetime);
    let hs = hours_after(r.hourly_forecast, r.datetime);
    let n = c.hourly_count->0 as nat;
    if n < hs.len() {
        assert forall|i: int| 0 <= i < hs.take(n as int).len() implies #[trigger] hs.take(n as int)[i].time
            > r.datetime by {
            assert(hs.take(n as int)[i] == hs[i]);
        }
    }
}


/// By default (no forecast asked for), a standard report is one line: the
/// current weather.
pub proof fn law_default_output_is_one_line(r: ReportView, custom: Option<Seq<char>>)
    requires
        r.metar is None,
    ensures
        cli_lines(r, DisplayChoice { show_taf: false, hourly_count: None, daily_count: None }, custom)
            == seq![current_line(r, custom, crate::display::default_line(r))],
{
    let c = DisplayChoice { show_taf: false, hourly_count: None, daily_count: None };
    let v = shown_report(r, c);
    assert(v =~= r);
    assert(report_lines(v, false, false, custom) =~= seq![current_line(r, custom, crate::display::default_line(r))]);
}

/// When days are asked for on the command line, no more days are shown than
/// asked for, and they are the first days of the forecast.
pub proof fn law_daily_forecast_is_cut_to_count(r: ReportView, c: DisplayChoice)
    requires
        c.daily_count is Some,
    ensures
        shown_report(r, c).daily_forecast.len() <= c.daily_count->0,
        shown_report(r, c).daily_forecast == r.daily_forecast.take(
            shown_report(r, c).daily_forecast.len() as int,
        ),
{
    let n = c.daily_count->0 as nat;
    if n >= r.daily_forecast.len() {
        assert(r.daily_forecast.take(r.daily_forecast.len() as int) =~= r.daily_forecast);
    }
}

/// The day after a week day.
pub open spec fn following_weekday(name: Seq<char>) -> Seq<char> {
    if name == "Mon"@ {
        "Tue"@
    } else if name == "Tue"@ {
        "Wed"@
    } else if name == "Wed"@ {
        "Thu"@
    } else if name == "Thu"@ {
        "Fri"@
    } else if name == "Fri"@ {
        "Sat"@
    } else if name == "Sat"@ {
        "Sun"@
    } else {
        "Mon"@
    }
}

proof fn lemma_weekday_names_distinct()
    ensures
        "Mon"@ != "Tue"@, "Mon"@ != "Wed"@, "Mon"@ != "Thu"@, "Mon"@ != "Fri"@, "Mon"@ != "Sat"@,
        "Mon"@ != "Sun"@, "Tue"@ != "Wed"@, "Tue"@ != "Thu"@, "Tue"@ != "Fri"@, "Tue"@ != "Sat"@,
        "Tue"@ != "Sun"@, "Wed"@ != "Thu"@, "Wed"@ != "Fri"@, "Wed"@ != "Sat"@, "Wed"@ != "Sun"@,
        "Thu"@ != "Fri"@, "Thu"@ != "Sat"@, "Thu"@ != "Sun"@, "Fri"@ != "Sat"@, "Fri"@ != "Sun"@,
        "Sat"@ != "Sun"@,
{
    reveal_strlit("Mon");
    reveal_strlit("Tue");
    reveal_strlit("Wed");
    reveal_strlit("Thu");
    reveal_strlit("Fri");
    reveal_strlit("Sat");
    reveal_strlit("Sun");
    assert("Mon"@[0] != "Tue"@[0]);
    assert("Mon"@[0] != "Wed"@[0]);
    assert("Mon"@[0] != "Thu"@[0]);
    assert("Mon"@[0] != "Fri"@[0]);
    assert("Mon"@[0] != "Sat"@[0]);
    assert("Mon"@[0] != "Sun"@[0]);
    assert("Tue"@[0] != "Wed"@[0]);
    assert("Tue"@[1] != "Thu"@[1]);
    assert("Tue"@[0] != "Fri"@[0]);
    assert("Tue"@[0] != "Sat"@[0]);
    assert("Tue"@[0] != "Sun"@[0]);
    assert("Wed"@[0] != "Thu"@[0]);
    assert("Wed"@[0] != "Fri"@[0]);
    assert("Wed"@[0] != "Sat"@[0]);
    assert("Wed"@[0] != "Sun"@[0]);
    assert("Thu"@[0] != "Fri"@[0]);
    assert("Thu"@[0] != "Sat"@[0]);
    assert("Thu"@[0] != "Sun"@[0]);
    assert("Fri"@[0] != "Sat"@[0]);
    assert("Fri"@[0] != "Sun"@[0]);
    assert("Sat"@[1] != "Sun"@[1]);
}

/// The week days of consecutive dates follow one another, Monday to
/// Sunday and round again; 1970-01-01 was a Thursday; and no two dates less
/// than a week apart are given the same name.
pub proof fn law_weekdays_follow_the_calendar(d: int, k: int)
    requires
        0 < k < 7,
    ensures
        weekday_text(d + 1) == following_weekday(weekday_text(d)),
        weekday_text(0) == "Thu"@,
        weekday_text(d + 7) == weekday_text(d),
        weekday_text(d + k) != weekday_text(d),
{
    lemma_weekday_names_distinct();
    assert((d + 1 + 3) % 7 == if (d + 3) % 7 == 6 { 0 } else { (d + 3) % 7 + 1 });
    assert((d + 7 + 3) % 7 == (d + 3) % 7);
    assert((d + k + 3) % 7 != (d + 3) % 7);
}

/// A daily forecast entry is labelled with the week day of its own date.
pub proof fn law_daily_entry_names_its_weekday(e: DailyForecastEntry)
    ensures
        daily_entry_text(e).subrange(0, 3) == weekday_text(e.date as int),
        (e.date + 3) % 7 == 6 ==> daily_entry_text(e).subrange(0, 3) == "Sun"@,
{
    reveal_strlit("Mon");
    reveal_strlit("Tue");
    reveal_strlit("Wed");
    reveal_strlit("Thu");
    reveal_strlit("Fri");
    reveal_strlit("Sat");
    reveal_strlit("Sun");
    let w = weekday_text(e.date as int);
    assert(w.len() == 3);
    assert(daily_entry_text(e).subrange(0, 3) =~= w);
}

/// Every daily forecast entry made from the service's readings comes from a
/// day with the same date whose maximum reading is the entry's high and
/// whose minimum reading is its low.
pub proof fn law_daily_entries_keep_high_and_low(ds: Seq<DailyReadings>)
    ensures
        forall|i: int|
            0 <= i < daily_entries_of(ds).len() ==> exists|j: int|
                0 <= j < ds.len() && ds[j].date == (#[trigger] daily_entries_of(ds)[i]).date
                    && ds[j].temp_max == Some(daily_entries_of(ds)[i].temp_max) && ds[j].temp_min
                    == Some(daily_entries_of(ds)[i].temp_min),
    decreases ds.len(),
{
    if ds.len() > 0 {
        let prev = ds.drop_last();
        law_daily_entries_keep_high_and_low(prev);
        let es = daily_entries_of(ds);
        let ps = daily_entries_of(prev);
        assert forall|i: int| 0 <= i < es.len() implies exists|j: int|
            0 <= j < ds.len() && ds[j].date == (#[trigger] es[i]).date && ds[j].temp_max == Some(
                es[i].temp_max,
            ) && ds[j].temp_min == Some(es[i].temp_min) by {
            if i < ps.len() {
                assert(es[i] == ps[i]);
                let j = choose|j: int|
                    0 <= j < prev.len() && prev[j].date == ps[i].date && prev[j].temp_max == Some(
                        ps[i].temp_max,
                    ) && prev[j].temp_min == Some(ps[i].temp_min);
                assert(ds[j] == prev[j]);
            } else {
                assert(ds[ds.len() - 1] == ds.last());
            }
        }
    }
}

/// When every day has both readings, there is one entry per day, in order,
/// each with the day's date, its maximum as high and its minimum as low.
pub proof fn law_complete_days_give_one_entry_each(ds: Seq<DailyReadings>)
    requires
        forall|j: int| 0 <= j < ds.len() ==> (#[trigger] ds[j]).temp_max is Some && ds[j].temp_min is Some,
    ensures
        daily_entries_of(ds).len() == ds.len(),
        forall|i: int|
            0 <= i < ds.len() ==> (#[trigger] daily_entries_of(ds)[i]).date == ds[i].date
                && Some(daily_entries_of(ds)[i].temp_max) == ds[i].temp_max && Some(
                daily_entries_of(ds)[i].temp_min,
            ) == ds[i].temp_min && daily_entries_of(ds)[i].precipitation_chance
                == ds[i].precipitation_probability,
    decreases ds.len(),
{
    if ds.len() > 0 {
        let prev = ds.drop_last();
        assert forall|j: int| 0 <= j < prev.len() implies (#[trigger] prev[j]).temp_max is Some
            && prev[j].temp_min is Some by {
            assert(prev[j] == ds[j]);
        }
        law_complete_days_give_one_entry_each(prev);
        assert(ds.last() == ds[ds.len() - 1]);
        let es = daily_entries_of(ds);
        assert forall|i: int| 0 <= i < ds.len() implies (#[trigger] es[i]).date == ds[i].date
            && Some(es[i].temp_max) == ds[i].temp_max && Some(es[i].temp_min) == ds[i].temp_min
            && es[i].precipitation_chance == ds[i].precipitation_probability by {
            if i < prev.len() {
                assert(prev[i] == ds[i]);
            }
        }
    }
}

/// A custom format's `{temp_max}` and `{temp_min}` are today's high and low
/// (the first daily entry's, else the report's own), rounded to whole
/// degrees: the very numbers the built-in line shows after `Hi:` and `Lo:`.
pub proof fn law_template_high_and_low_are_todays(r: ReportView)
    ensures
        ({
            let (high, low) = if r.daily_forecast.len() > 0 {
                (Some(r.daily_forecast[0].temp_max), Some(r.daily_forecast[0].temp_min))
            } else {
                (r.temp_max, r.temp_min)
            };
            &&& template_value(r, "temp_max"@) == Some(
                match high {
                    Some(t) => temperature_text(t as int),
                    None => "N/A"@,
                },
            )
            &&& template_value(r, "temp_min"@) == Some(
                match low {
                    Some(t) => temperature_text(t as int),
                    None => "N/A"@,
                },
            )
            &&& (high is Some && low is Some) ==> hilo_text(r) == " Hi:"@ + template_value(
                r,
                "temp_max"@,
            )->0 + "F Lo:"@ + template_value(r, "temp_min"@)->0 + "F"@
        }),
{
    reveal_strlit("location");
    reveal_strlit("temp");
    reveal_strlit("dew_point");
    reveal_strlit("hilo");
    reveal_strlit("temp_max");
    reveal_strlit("temp_min");
    assert("temp_max"@[0] != "location"@[0]);
    assert("temp_max"@.len() != "temp"@.len());
    assert("temp_max"@.len() != "dew_point"@.len());
    assert("temp_max"@.len() != "hilo"@.len());
    assert("temp_min"@[0] != "location"@[0]);
    assert("temp_min"@.len() != "temp"@.len());
    assert("temp_min"@.len() != "dew_point"@.len());
    assert("temp_min"@.len() != "hilo"@.len());
    assert("temp_min"@[6] != "temp_max"@[6]);
}

/// On the command line, an aviation report shows its TAF exactly when the
/// choice asks for it: the words printed are those of the METAR line, then
/// (when the TAF is asked for) the heading and every TAF time block, or the
/// notice that there is none, then those of the disclaimer.
pub proof fn law_cli_shows_taf_when_asked(r: ReportView, c: DisplayChoice, custom: Option<Seq<char>>)
    requires
        r.metar is Some,
    ensures
        ({
            let m = r.metar->0;
            let taf_words = if c.show_taf {
                match r.taf {
                    Some(t) => words("Forecast (TAF):"@) + words_of_lines(t.lines),
                    None => words("No TAF available for this station."@),
                }
            } else {
                seq![]
            };
            words_of_lines(cli_lines(r, c, custom)) == words(
                "📍"@ + m.station_id + " (METAR) "@ + m.raw,
            ) + taf_words + words(aviation_disclaimer())
        }),
        c.show_taf && r.taf is Some ==> cli_lines(r, c, custom).contains("Forecast (TAF):"@),
{
    let v = shown_report(r, c);
    assert(v.metar == r.metar && v.taf == r.taf);
    law_aviation_output_keeps_every_token(v, c.show_taf, c.hourly_count is Some, custom);
    assert(cli_lines(r, c, custom) == report_lines(v, c.show_taf, c.hourly_count is Some, custom));
    if c.show_taf && r.taf is Some {
        let m = r.metar->0;
        let first = wrapped_lines("📍"@ + m.station_id + " (METAR) "@ + m.raw, 80);
        let lines = report_lines(v, c.show_taf, c.hourly_count is Some, custom);
        assert(lines[first.len() as int] == "Forecast (TAF):"@);
    }
}

/// A count given after `d` or `h` is the number of days or hours shown;
/// the defaults (7 days, 12 hours) apply only when no count follows.
pub proof fn law_forecast_count_is_used(args: Seq<Seq<char>>, taf: bool, aviation: bool)
    requires
        args.len() >= 1,
        args[0] == "d"@ || args[0] == "h"@,
    ensures
        ({
            let n: u8 = if args.len() >= 2 && parsed_u8(args[1]) is Some {
                parsed_u8(args[1])->0
            } else if args[0] == "d"@ {
                7
            } else {
                12
            };
            chosen_display(Some(args), taf, aviation) == Ok::<DisplayChoice, Seq<char>>(
                if args[0] == "d"@ {
                    DisplayChoice { show_taf: taf, hourly_count: None, daily_count: Some(n) }
                } else {
                    DisplayChoice { show_taf: taf, hourly_count: Some(n), daily_count: None }
                },
            )
        }),
{
    reveal_strlit("d");
    reveal_strlit("h");
    assert("d"@[0] != "h"@[0]);
}

} // verus!
