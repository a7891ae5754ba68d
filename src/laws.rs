//! Properties of pasting that hold for every expression of a given shape.

use vstd::prelude::*;
use crate::error::{missing_var, ErrorView};
use crate::paste::{
    arg_text, env_lookup, eval_from, eval_step, final_text, initial_state, paste_spec, sanitize,
    EnvVar, EvalState,
};
use crate::segment::SegmentView;
use crate::text::{concat_all, lemma_replace_absent, lemma_replace_char_removes, occurs_in};
use crate::token::{is_punct, Span, Token};

verus! {

/// Whether `seg` is the raw-identifier marker `#`.
pub open spec fn is_raw_marker(seg: SegmentView) -> bool {
    match seg {
        SegmentView::Text { value, .. } => value == seq!['#'],
        _ => false,
    }
}

/// Whether `seg` is a modifier or a replace.
pub open spec fn is_transform(seg: SegmentView) -> bool {
    match seg {
        SegmentView::Modifier { .. } => true,
        SegmentView::Replace { .. } => true,
        _ => false,
    }
}

/// Whether the segment at `i` fails from every state.
pub open spec fn always_fails(segs: Seq<SegmentView>, vars: Seq<EnvVar>, i: int) -> bool {
    forall|st: EvalState| (#[trigger] eval_step(st, i, segs[i], vars)) is Err
}

/// A segment that fails from every state makes every evaluation that
/// reaches it fail.
proof fn lemma_fails_at(segs: Seq<SegmentView>, vars: Seq<EnvVar>, k: int, st: EvalState, i: int)
    requires
        0 <= k <= i < segs.len(),
        always_fails(segs, vars, i),
    ensures
        eval_from(segs, vars, k, st) is Err,
    decreases i - k,
{
    assert(eval_step(st, k, segs[k], vars) is Err || eval_step(st, k, segs[k], vars) is Ok);
    if k < i {
        match eval_step(st, k, segs[k], vars) {
            Ok(next) => lemma_fails_at(segs, vars, k + 1, next, i),
            Err(e) => {},
        }
    }
}

/// Once set, the raw mark stays set.
proof fn lemma_raw_kept(segs: Seq<SegmentView>, vars: Seq<EnvVar>, k: int, st: EvalState)
    requires
        0 <= k,
        st.raw,
        eval_from(segs, vars, k, st) is Ok,
    ensures
        eval_from(segs, vars, k, st)->Ok_0.raw,
    decreases segs.len() - k,
{
    if k < segs.len() {
        match eval_step(st, k, segs[k], vars) {
            Ok(next) => lemma_raw_kept(segs, vars, k + 1, next),
            Err(e) => {},
        }
    }
}

/// A lifetime marker at `j`, reached with the lifetime mark set, fails.
proof fn lemma_lifetime_set(segs: Seq<SegmentView>, vars: Seq<EnvVar>, k: int, st: EvalState, j: int)
    requires
        0 <= k <= j < segs.len(),
        st.lifetime,
        segs[j] is Apostrophe,
    ensures
        eval_from(segs, vars, k, st) is Err,
    decreases j - k,
{
    if k < j {
        match eval_step(st, k, segs[k], vars) {
            Ok(next) => lemma_lifetime_set(segs, vars, k + 1, next, j),
            Err(e) => {},
        }
    }
}

/// A lifetime marker at `i`, reached at all, leaves the lifetime mark set in
/// any result.
proof fn lemma_lifetime_reached(segs: Seq<SegmentView>, vars: Seq<EnvVar>, k: int, st: EvalState, i: int)
    requires
        0 <= k,
        k <= i < segs.len() || st.lifetime,
        i < segs.len() ==> segs[i] is Apostrophe,
        eval_from(segs, vars, k, st) is Ok,
    ensures
        eval_from(segs, vars, k, st)->Ok_0.lifetime,
    decreases segs.len() - k,
{
    if k < segs.len() {
        match eval_step(st, k, segs[k], vars) {
            Ok(next) => lemma_lifetime_reached(segs, vars, k + 1, next, i),
            Err(e) => {},
        }
    }
}

/// Two lifetime markers in one expression make it fail.
pub proof fn lemma_two_lifetimes_fail(segs: Seq<SegmentView>, vars: Seq<EnvVar>, i: int, j: int)
    requires
        0 <= i < j < segs.len(),
        segs[i] is Apostrophe,
        segs[j] is Apostrophe,
    ensures
        paste_spec(segs, vars) is Err,
{
    lemma_two_lifetimes_from(segs, vars, 0, initial_state(), i, j);
}

proof fn lemma_two_lifetimes_from(segs: Seq<SegmentView>, vars: Seq<EnvVar>, k: int, st: EvalState, i: int, j: int)
    requires
        0 <= k <= i < j < segs.len(),
        segs[i] is Apostrophe,
        segs[j] is Apostrophe,
    ensures
        eval_from(segs, vars, k, st) is Err,
    decreases i - k,
{
    match eval_step(st, k, segs[k], vars) {
        Ok(next) => {
            if k < i {
                lemma_two_lifetimes_from(segs, vars, k + 1, next, i, j);
            } else {
                lemma_lifetime_set(segs, vars, k + 1, next, j);
            }
        },
        Err(e) => {},
    }
}

/// An expression with a lifetime marker that pastes gives a lifetime whose
/// text starts with `'`.
pub proof fn lemma_lifetime_prefix(segs: Seq<SegmentView>, vars: Seq<EnvVar>, i: int)
    requires
        0 <= i < segs.len(),
        segs[i] is Apostrophe,
        paste_spec(segs, vars) is Ok,
    ensures
        paste_spec(segs, vars)->Ok_0.2,
        paste_spec(segs, vars)->Ok_0.0.len() > 0,
        paste_spec(segs, vars)->Ok_0.0[0] == '\'',
{
    lemma_lifetime_reached(segs, vars, 0, initial_state(), i);
}

/// A raw marker first: the expression, if it pastes, is a raw identifier,
/// and the marker adds no text.
pub proof fn lemma_raw_first(segs: Seq<SegmentView>, vars: Seq<EnvVar>)
    requires
        segs.len() > 0,
        is_raw_marker(segs[0]),
    ensures
        eval_from(segs, vars, 0, initial_state()) == eval_from(
            segs,
            vars,
            1,
            EvalState { raw: true, ..initial_state() },
        ),
        paste_spec(segs, vars) is Ok ==> paste_spec(segs, vars)->Ok_0.1,
{
    let st = EvalState { raw: true, ..initial_state() };
    if eval_from(segs, vars, 1, st) is Ok {
        lemma_raw_kept(segs, vars, 1, st);
    }
}

/// A raw marker anywhere but first makes the expression fail.
pub proof fn lemma_raw_later_fails(segs: Seq<SegmentView>, vars: Seq<EnvVar>, i: int)
    requires
        1 <= i < segs.len(),
        is_raw_marker(segs[i]),
    ensures
        paste_spec(segs, vars) is Err,
{
    assert(always_fails(segs, vars, i));
    lemma_fails_at(segs, vars, 0, initial_state(), i);
}

/// An expression that reads an undefined environment variable fails, and if
/// that read comes first, with the failure that names the variable.
pub proof fn lemma_undefined_env_fails(segs: Seq<SegmentView>, vars: Seq<EnvVar>, i: int, name: Seq<char>, span: Span)
    requires
        0 <= i < segs.len(),
        segs[i] == (SegmentView::Env { name, span }),
        env_lookup(vars, name) is None,
    ensures
        paste_spec(segs, vars) is Err,
        i == 0 ==> paste_spec(segs, vars) == Err::<(Seq<char>, bool, bool), ErrorView>(missing_var(span, name)),
{
    assert(always_fails(segs, vars, i));
    lemma_fails_at(segs, vars, 0, initial_state(), i);
}

/// A modifier or a replace as the first segment has no value to work on,
/// and the expression fails.
pub proof fn lemma_transform_first_fails(segs: Seq<SegmentView>, vars: Seq<EnvVar>)
    requires
        segs.len() > 0,
        is_transform(segs[0]),
    ensures
        paste_spec(segs, vars) is Err,
{
}

/// A replace whose pattern does not occur in the value before it leaves that
/// value unchanged.
pub proof fn lemma_replace_absent_keeps(
    value: Seq<char>,
    span: Span,
    colon: Span,
    args: Seq<Token>,
    gspan: Span,
    vars: Seq<EnvVar>,
)
    requires
        value != seq!['#'],
        args.len() == 3,
        is_punct(args[1], ','),
        arg_text(args[0]) is Ok,
        arg_text(args[0])->Ok_0.len() > 0,
        !occurs_in(value, arg_text(args[0])->Ok_0),
        arg_text(args[2]) is Ok,
    ensures
        paste_spec(
            seq![SegmentView::Text { value, span }, SegmentView::Replace { colon, args, span: gspan }],
            vars,
        ) == Ok::<(Seq<char>, bool, bool), ErrorView>((value, false, false)),
{
    let segs = seq![SegmentView::Text { value, span }, SegmentView::Replace { colon, args, span: gspan }];
    let from = arg_text(args[0])->Ok_0;
    let to = arg_text(args[2])->Ok_0;
    lemma_replace_absent(value, from, to);
    let st1 = EvalState { acc: seq![value], ..initial_state() };
    assert(st1.acc.drop_last().push(value) =~= seq![value]);
    assert(eval_step(initial_state(), 0, segs[0], vars) == Ok::<EvalState, ErrorView>(st1));
    assert(eval_step(st1, 1, segs[1], vars) == Ok::<EvalState, ErrorView>(st1));
    assert(eval_from(segs, vars, 2, st1) == Ok::<EvalState, ErrorView>(st1));
    assert(eval_from(segs, vars, 1, st1) == Ok::<EvalState, ErrorView>(st1));
    assert(eval_from(segs, vars, 0, initial_state()) == Ok::<EvalState, ErrorView>(st1));
    assert(seq![value].drop_last() =~= Seq::<Seq<char>>::empty());
    assert(Seq::<char>::empty() + value =~= value);
    assert(concat_all(Seq::<Seq<char>>::empty()) == Seq::<char>::empty());
    assert(seq![value].last() == value);
    assert(concat_all(seq![value]) == concat_all(seq![value].drop_last()) + value);
    assert(concat_all(seq![value]) == value);
    assert(final_text(st1) == value);
}

/// Whether `seg` is a text fragment other than the raw marker.
pub open spec fn is_plain_text(seg: SegmentView) -> bool {
    match seg {
        SegmentView::Text { value, .. } => value != seq!['#'],
        _ => false,
    }
}

/// The text of a fragment; empty for any other segment.
pub open spec fn fragment_text(seg: SegmentView) -> Seq<char> {
    match seg {
        SegmentView::Text { value, .. } => value,
        _ => Seq::empty(),
    }
}

proof fn lemma_fragments_from(segs: Seq<SegmentView>, vars: Seq<EnvVar>, k: int)
    requires
        0 <= k <= segs.len(),
        forall|i: int| 0 <= i < segs.len() ==> is_plain_text(#[trigger] segs[i]),
    ensures
        eval_from(
            segs,
            vars,
            k,
            EvalState { acc: segs.map_values(|s: SegmentView| fragment_text(s)).take(k), lifetime: false, raw: false },
        ) == Ok::<EvalState, ErrorView>(
            EvalState { acc: segs.map_values(|s: SegmentView| fragment_text(s)), lifetime: false, raw: false },
        ),
    decreases segs.len() - k,
{
    let values = segs.map_values(|s: SegmentView| fragment_text(s));
    if k == segs.len() {
        assert(values.take(k) =~= values);
    } else {
        assert(is_plain_text(segs[k]));
        assert(values.take(k).push(values[k]) =~= values.take(k + 1));
        lemma_fragments_from(segs, vars, k + 1);
    }
}

/// Text fragments alone paste to their concatenation, in order, with
/// neither mark set.
pub proof fn lemma_fragments_concatenate(segs: Seq<SegmentView>, vars: Seq<EnvVar>)
    requires
        forall|i: int| 0 <= i < segs.len() ==> is_plain_text(#[trigger] segs[i]),
    ensures
        paste_spec(segs, vars) == Ok::<(Seq<char>, bool, bool), ErrorView>(
            (concat_all(segs.map_values(|s: SegmentView| fragment_text(s))), false, false),
        ),
{
    assert(segs.map_values(|s: SegmentView| fragment_text(s)).take(0) =~= Seq::<Seq<char>>::empty());
    lemma_fragments_from(segs, vars, 0);
}

/// A defined environment variable pastes to its value with each `-` made
/// `_`, and the result holds no `-`.
pub proof fn lemma_env_resolves(name: Seq<char>, span: Span, vars: Seq<EnvVar>)
    requires
        env_lookup(vars, name) is Some,
    ensures
        paste_spec(seq![SegmentView::Env { name, span }], vars) == Ok::<(Seq<char>, bool, bool), ErrorView>(
            (sanitize(env_lookup(vars, name)->Some_0), false, false),
        ),
        !sanitize(env_lookup(vars, name)->Some_0).contains('-'),
{
    let v = sanitize(env_lookup(vars, name)->Some_0);
    let segs = seq![SegmentView::Env { name, span }];
    let st1 = EvalState { acc: seq![v], ..initial_state() };
    assert(eval_step(initial_state(), 0, segs[0], vars) == Ok::<EvalState, ErrorView>(st1));
    assert(eval_from(segs, vars, 1, st1) == Ok::<EvalState, ErrorView>(st1));
    assert(eval_from(segs, vars, 0, initial_state()) == Ok::<EvalState, ErrorView>(st1));
    assert(seq![v].drop_last() =~= Seq::<Seq<char>>::empty());
    assert(concat_all(Seq::<Seq<char>>::empty()) == Seq::<char>::empty());
    assert(Seq::<char>::empty() + v =~= v);
    assert(concat_all(seq![v]) == concat_all(seq![v].drop_last()) + v);
    assert(final_text(st1) == v);
    assert(!seq!['_'].contains('-'));
    lemma_replace_char_removes(env_lookup(vars, name)->Some_0, '-', seq!['_']);
}

} // verus!
