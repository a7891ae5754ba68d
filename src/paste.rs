//! Evaluation of a paste expression: segments are walked left to right into
//! an accumulator of fragments, which are then joined.

use vstd::prelude::*;
use crate::error::{at, between, missing_var, ErrorKind, ErrorView, PasteError};
use crate::segment::{is_quoted, quoted, segs_view, unquote, unquoted, Segment, SegmentView};
use crate::text::{
    concat_all, lower_of, lowercase, replace_all, replace_text, same_text, upper_of, uppercase,
};
use crate::token::{is_punct, token_span, Span, Token};
use crate::transform::{
    camel_edge_spec, camel_spec, camelize, lower_camel_spec, snake, snake_spec,
};

verus! {

/// A defined environment variable.
#[derive(Debug)]
pub struct EnvVar {
    pub name: String,
    pub value: String,
}

/// The value of the first variable in `vars` named `name`, if any.
pub open spec fn env_lookup(vars: Seq<EnvVar>, name: Seq<char>) -> Option<Seq<char>>
    decreases vars.len(),
{
    if vars.len() == 0 {
        None
    } else if vars[0].name@ == name {
        Some(vars[0].value@)
    } else {
        env_lookup(vars.drop_first(), name)
    }
}

/// A variable's value made fit for an identifier: each `-` becomes `_`.
pub open spec fn sanitize(value: Seq<char>) -> Seq<char> {
    replace_all(value, seq!['-'], seq!['_'])
}

/// What the modifier called `name` makes of `v`; `None` for an unknown name.
pub open spec fn apply_modifier(name: Seq<char>, v: Seq<char>) -> Option<Seq<char>> {
    if name == "lower"@ {
        Some(lower_of(v))
    } else if name == "upper"@ {
        Some(upper_of(v))
    } else if name == "snake"@ {
        Some(snake_spec(v))
    } else if name == "camel"@ || name == "upper_camel"@ {
        Some(camel_spec(v))
    } else if name == "lower_camel"@ {
        Some(lower_camel_spec(v))
    } else if name == "camel_edge"@ {
        Some(camel_edge_spec(v))
    } else {
        None
    }
}

/// The text of a replace argument: an identifier as it is, a quoted literal
/// without its quotes, any other literal as it is.
pub open spec fn arg_text(t: Token) -> Result<Seq<char>, ErrorView> {
    match t {
        Token::Ident { text, .. } => Ok(text@),
        Token::Literal { text, .. } => {
            if is_quoted(text@, '"') || is_quoted(text@, '\'') {
                Ok(unquote(text@))
            } else {
                Ok(text@)
            }
        },
        _ => Err(at(ErrorKind::ExpectedIdentOrLiteral, token_span(t))),
    }
}

/// Where the evaluation stands between two segments.
pub struct EvalState {
    /// The fragments so far, in order.
    pub acc: Seq<Seq<char>>,
    /// Whether a lifetime marker has been seen.
    pub lifetime: bool,
    /// Whether raw-identifier mode was asked for.
    pub raw: bool,
}

/// The state before the first segment.
pub open spec fn initial_state() -> EvalState {
    EvalState { acc: Seq::empty(), lifetime: false, raw: false }
}

/// The effect of segment `seg`, at index `i`, on state `st`.
pub open spec fn eval_step(st: EvalState, i: int, seg: SegmentView, vars: Seq<EnvVar>) -> Result<EvalState, ErrorView> {
    match seg {
        SegmentView::Text { value, span } => {
            if value == seq!['#'] {
                if i == 0 {
                    Ok(EvalState { raw: true, ..st })
                } else {
                    Err(at(ErrorKind::MisplacedRawMarker, span))
                }
            } else {
                Ok(EvalState { acc: st.acc.push(value), ..st })
            }
        },
        SegmentView::Apostrophe { span } => {
            if st.lifetime {
                Err(at(ErrorKind::UnexpectedLifetime, span))
            } else {
                Ok(EvalState { lifetime: true, ..st })
            }
        },
        SegmentView::Env { name, span } => {
            match env_lookup(vars, name) {
                Some(v) => Ok(EvalState { acc: st.acc.push(sanitize(v)), ..st }),
                None => Err(missing_var(span, name)),
            }
        },
        SegmentView::Modifier { colon, name, span } => {
            if st.acc.len() == 0 {
                Err(between(ErrorKind::UnexpectedModifier, colon, span))
            } else {
                match apply_modifier(name, st.acc.last()) {
                    Some(r) => Ok(EvalState { acc: st.acc.drop_last().push(r), ..st }),
                    None => Err(between(ErrorKind::UnsupportedModifier, colon, span)),
                }
            }
        },
        SegmentView::Replace { colon, args, span } => {
            if args.len() > 3 {
                Err(at(ErrorKind::ExpectedCloseParen, token_span(args[3])))
            } else if args.len() < 3 || !is_punct(args[1], ',') {
                Err(at(ErrorKind::ExpectedReplaceFormat, span))
            } else if st.acc.len() == 0 {
                Err(between(ErrorKind::ReplaceNeedsValue, colon, span))
            } else {
                match arg_text(args[0]) {
                    Err(e) => Err(e),
                    Ok(from) => match arg_text(args[2]) {
                        Err(e) => Err(e),
                        Ok(to) => Ok(
                            EvalState {
                                acc: st.acc.drop_last().push(replace_all(st.acc.last(), from, to)),
                                ..st
                            },
                        ),
                    },
                }
            }
        },
    }
}

/// The state after segments `i..` of `segs`, from state `st`; or the first
/// failure.
pub open spec fn eval_from(segs: Seq<SegmentView>, vars: Seq<EnvVar>, i: int, st: EvalState) -> Result<EvalState, ErrorView>
    decreases segs.len() - i,
{
    if i < 0 || i >= segs.len() {
        Ok(st)
    } else {
        match eval_step(st, i, segs[i], vars) {
            Ok(next) => eval_from(segs, vars, i + 1, next),
            Err(e) => Err(e),
        }
    }
}

/// The text of a finished evaluation: the fragments joined, after a `'`
/// when a lifetime marker was seen.
pub open spec fn final_text(st: EvalState) -> Seq<char> {
    if st.lifetime {
        seq!['\''] + concat_all(st.acc)
    } else {
        concat_all(st.acc)
    }
}

/// The paste of `segs`: its text, whether it is a raw identifier and whether
/// it is a lifetime; or the first failure.
pub open spec fn paste_spec(segs: Seq<SegmentView>, vars: Seq<EnvVar>) -> Result<(Seq<char>, bool, bool), ErrorView> {
    match eval_from(segs, vars, 0, initial_state()) {
        Ok(st) => Ok((final_text(st), st.raw, st.lifetime)),
        Err(e) => Err(e),
    }
}

/// The result of pasting an expression.
#[derive(Debug)]
pub struct Pasted {
    /// The composed name, with a leading `'` for a lifetime.
    pub text: String,
    /// Whether the host is to emit a raw identifier.
    pub raw: bool,
    /// Whether the name is a lifetime.
    pub lifetime: bool,
}

/// The view of an executable paste result.
pub open spec fn pasted_view(r: Result<Pasted, PasteError>) -> Result<(Seq<char>, bool, bool), ErrorView> {
    match r {
        Ok(p) => Ok((p.text@, p.raw, p.lifetime)),
        Err(e) => Err(e@),
    }
}

/// The texts of a sequence of strings.
pub open spec fn strs_view(s: Seq<String>) -> Seq<Seq<char>> {
    s.map_values(|x: String| x@)
}

/// The value of the first variable in `vars` named `name`, if any.
pub fn lookup_env(vars: &Vec<EnvVar>, name: &String) -> (r: Option<String>)
    ensures
        match r {
            Some(v) => env_lookup(vars@, name@) == Some(v@),
            None => env_lookup(vars@, name@) is None,
        },
{
    let mut i: usize = 0;
    assert(vars@.skip(0) =~= vars@);
    while i < vars.len()
        invariant
            i <= vars@.len(),
            env_lookup(vars@, name@) == env_lookup(vars@.skip(i as int), name@),
        decreases vars@.len() - i,
    {
        assert(vars@.skip(i as int).drop_first() =~= vars@.skip(i + 1));
        if vars[i].name == *name {
            return Some(vars[i].value.clone());
        }
        i = i + 1;
    }
    None
}

/// Applies the modifier called `name` to `v`; `None` for an unknown name.
pub fn modify(name: &String, v: &String) -> (r: Option<String>)
    ensures
        match r {
            Some(x) => apply_modifier(name@, v@) == Some(x@),
            None => apply_modifier(name@, v@) is None,
        },
{
    let n = name.as_str();
    if same_text(n, "lower") {
        Some(lowercase(v.as_str()))
    } else if same_text(n, "upper") {
        Some(uppercase(v.as_str()))
    } else if same_text(n, "snake") {
        Some(snake(v.as_str()))
    } else if same_text(n, "camel") || same_text(n, "upper_camel") {
        Some(camelize(v.as_str(), false, false))
    } else if same_text(n, "lower_camel") {
        Some(camelize(v.as_str(), true, false))
    } else if same_text(n, "camel_edge") {
        Some(camelize(v.as_str(), false, true))
    } else {
        None
    }
}

/// The text of a replace argument, or a failure for a token that is neither
/// an identifier nor a literal.
pub fn argument_text(t: &Token) -> (r: Result<String, PasteError>)
    ensures
        match r {
            Ok(s) => arg_text(*t) == Ok::<Seq<char>, ErrorView>(s@),
            Err(e) => arg_text(*t) == Err::<Seq<char>, ErrorView>(e@),
        },
{
    match t {
        Token::Ident { text, .. } => Ok(text.clone()),
        Token::Literal { text, .. } => {
            if quoted(text.as_str(), '"') || quoted(text.as_str(), '\'') {
                Ok(unquoted(text.as_str()))
            } else {
                Ok(text.clone())
            }
        },
        _ => Err(PasteError::at(ErrorKind::ExpectedIdentOrLiteral, t.span())),
    }
}

/// Pastes `segments`, reading environment variables from `env`: the
/// fragments joined in order, with the lifetime and raw-identifier marks; or
/// the first failure.
pub fn paste<'a>(segments: &Vec<Segment<'a>>, env: &Vec<EnvVar>) -> (r: Result<Pasted, PasteError>)
    ensures
        pasted_view(r) == paste_spec(segs_view(segments@), env@),
{
    let ghost sv = segs_view(segments@);
    let mut acc: Vec<String> = Vec::new();
    let mut lifetime = false;
    let mut raw = false;
    let mut i: usize = 0;
    assert(strs_view(acc@) =~= Seq::<Seq<char>>::empty());
    while i < segments.len()
        invariant
            sv == segs_view(segments@),
            i <= segments@.len(),
            eval_from(sv, env@, 0, initial_state()) == eval_from(
                sv,
                env@,
                i as int,
                EvalState { acc: strs_view(acc@), lifetime, raw },
            ),
        decreases segments@.len() - i,
    {
        let ghost st = EvalState { acc: strs_view(acc@), lifetime, raw };
        proof {
            reveal_strlit("#");
            reveal_strlit("-");
            reveal_strlit("_");
            assert("#"@ =~= seq!['#']);
            assert("-"@ =~= seq!['-']);
            assert("_"@ =~= seq!['_']);
        }
        assert(sv[i as int] == segments@[i as int]@);
        match &segments[i] {
            Segment::Text { value, span } => {
                if same_text(value.as_str(), "#") {
                    if i != 0 {
                        return Err(PasteError::at(ErrorKind::MisplacedRawMarker, *span));
                    }
                    raw = true;
                } else {
                    acc.push(value.clone());
                    assert(strs_view(acc@) =~= st.acc.push(value@));
                }
            },
            Segment::Apostrophe { span } => {
                if lifetime {
                    return Err(PasteError::at(ErrorKind::UnexpectedLifetime, *span));
                }
                lifetime = true;
            },
            Segment::Env { name, span } => {
                match lookup_env(env, name) {
                    Some(v) => {
                        let clean = replace_text(v.as_str(), "-", "_");
                        acc.push(clean);
                        assert(strs_view(acc@) =~= st.acc.push(clean@));
                    },
                    None => {
                        return Err(PasteError::missing_var(*span, name.clone()));
                    },
                }
            },
            Segment::Modifier { colon, name, span } => {
                let last = match acc.pop() {
                    Some(last) => last,
                    None => {
                        return Err(PasteError::between(ErrorKind::UnexpectedModifier, *colon, *span));
                    },
                };
                assert(strs_view(acc@) =~= st.acc.drop_last());
                match modify(name, &last) {
                    Some(res) => {
                        acc.push(res);
                        assert(strs_view(acc@) =~= st.acc.drop_last().push(res@));
                    },
                    None => {
                        return Err(PasteError::between(ErrorKind::UnsupportedModifier, *colon, *span));
                    },
                }
            },
            Segment::Replace { colon, args, span } => {
                if args.len() > 3 {
                    return Err(PasteError::at(ErrorKind::ExpectedCloseParen, args[3].span()));
                }
                if args.len() < 3 || !args[1].is_punct(',') {
                    return Err(PasteError::at(ErrorKind::ExpectedReplaceFormat, *span));
                }
                let last = match acc.pop() {
                    Some(last) => last,
                    None => {
                        return Err(PasteError::between(ErrorKind::ReplaceNeedsValue, *colon, *span));
                    },
                };
                assert(strs_view(acc@) =~= st.acc.drop_last());
                let from = match argument_text(&args[0]) {
                    Ok(s) => s,
                    Err(e) => {
                        return Err(e);
                    },
                };
                let to = match argument_text(&args[2]) {
                    Ok(s) => s,
                    Err(e) => {
                        return Err(e);
                    },
                };
                let res = replace_text(last.as_str(), from.as_str(), to.as_str());
                acc.push(res);
                assert(strs_view(acc@) =~= st.acc.drop_last().push(res@));
            },
        }
        i = i + 1;
    }
    let ghost done = EvalState { acc: strs_view(acc@), lifetime, raw };
    let mut text = String::new();
    if lifetime {
        let mark = crate::text::char_to_string('\'');
        text.append(mark.as_str());
    }
    let ghost prefix = text@;
    let mut j: usize = 0;
    assert(strs_view(acc@).take(0) =~= Seq::<Seq<char>>::empty());
    assert(prefix + Seq::<char>::empty() =~= prefix);
    while j < acc.len()
        invariant
            j <= acc@.len(),
            text@ == prefix + concat_all(strs_view(acc@).take(j as int)),
        decreases acc@.len() - j,
    {
        text.append(acc[j].as_str());
        assert(strs_view(acc@).take(j + 1).drop_last() =~= strs_view(acc@).take(j as int));
        assert(text@ =~= prefix + concat_all(strs_view(acc@).take(j + 1)));
        j = j + 1;
    }
    assert(strs_view(acc@).take(acc@.len() as int) =~= strs_view(acc@));
    assert(text@ =~= final_text(done));
    Ok(Pasted { text, raw, lifetime })
}

} // verus!
