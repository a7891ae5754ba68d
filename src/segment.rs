//! Segments of a paste expression, and the parser that reads them from
//! tokens.

use vstd::prelude::*;
use crate::error::{at, between, ErrorKind, ErrorView, PasteError};
use crate::text::{char_to_string, same_text};
use crate::token::{is_punct, token_span, Delimiter, Span, Token};

verus! {

/// One parsed piece of a paste expression. A replace keeps its argument
/// tokens as they were given: they are read when the expression is pasted.
#[derive(Debug)]
pub enum Segment<'a> {
    Text { value: String, span: Span },
    Apostrophe { span: Span },
    Env { name: String, span: Span },
    Modifier { colon: Span, name: String, span: Span },
    Replace { colon: Span, args: &'a Vec<Token>, span: Span },
}

/// A segment, with its text as characters.
pub enum SegmentView {
    Text { value: Seq<char>, span: Span },
    Apostrophe { span: Span },
    Env { name: Seq<char>, span: Span },
    Modifier { colon: Span, name: Seq<char>, span: Span },
    Replace { colon: Span, args: Seq<Token>, span: Span },
}

impl<'a> View for Segment<'a> {
    type V = SegmentView;

    open spec fn view(&self) -> SegmentView {
        match self {
            Segment::Text { value, span } => SegmentView::Text { value: value@, span: *span },
            Segment::Apostrophe { span } => SegmentView::Apostrophe { span: *span },
            Segment::Env { name, span } => SegmentView::Env { name: name@, span: *span },
            Segment::Modifier { colon, name, span } => SegmentView::Modifier {
                colon: *colon,
                name: name@,
                span: *span,
            },
            Segment::Replace { colon, args, span } => SegmentView::Replace {
                colon: *colon,
                args: args@,
                span: *span,
            },
        }
    }
}

/// The views of a sequence of segments.
pub open spec fn segs_view<'a>(s: Seq<Segment<'a>>) -> Seq<SegmentView> {
    s.map_values(|x: Segment<'a>| x@)
}

/// An identifier's text without the raw-identifier prefix `r#`.
pub open spec fn strip_raw(text: Seq<char>) -> Seq<char> {
    if text.len() >= 2 && text[0] == 'r' && text[1] == '#' {
        text.skip(2)
    } else {
        text
    }
}

/// Whether `text` is at least two characters long and starts and ends with `q`.
pub open spec fn is_quoted(text: Seq<char>, q: char) -> bool {
    text.len() >= 2 && text[0] == q && text.last() == q
}

/// `text` without its first and last characters.
pub open spec fn unquote(text: Seq<char>) -> Seq<char> {
    text.subrange(1, text.len() - 1)
}

/// `pieces` put before the segments of a parse result.
pub open spec fn prepend(
    pieces: Seq<SegmentView>,
    rest: Result<(Seq<SegmentView>, int), ErrorView>,
) -> Result<(Seq<SegmentView>, int), ErrorView> {
    match rest {
        Ok((segs, stop)) => Ok((pieces + segs, stop)),
        Err(e) => Err(e),
    }
}

/// How deeply transparent groups may nest inside one another.
pub const MAX_GROUP_DEPTH: usize = 128;

/// The parse of `toks` from position `pos`, inside `depth` transparent groups: the segments read, and the
/// position where reading stopped (the end, or a `>` that is not consumed);
/// or the first failure.
pub open spec fn parse_spec(toks: Seq<Token>, pos: int, depth: int) -> Result<(Seq<SegmentView>, int), ErrorView>
    decreases toks, toks.len() - pos,
{
    if pos < 0 || pos >= toks.len() || is_punct(toks[pos], '>') {
        Ok((Seq::empty(), pos))
    } else {
        match toks[pos] {
            Token::Ident { text, span } => {
                let frag = strip_raw(text@);
                if frag == "env"@ && pos + 1 < toks.len() && is_punct(toks[pos + 1], '!') {
                    if pos + 2 >= toks.len() {
                        Err(between(ErrorKind::ExpectedParenAfterEnv, span, token_span(toks[pos + 1])))
                    } else {
                        match toks[pos + 2] {
                            Token::Group { delimiter: Delimiter::Parenthesis, stream, span: gspan } => {
                                if stream@.len() == 0 {
                                    Err(between(ErrorKind::ExpectedEnvArgument, span, gspan))
                                } else {
                                    match stream@[0] {
                                        Token::Literal { text: lit, span: lspan } => {
                                            if !is_quoted(lit@, '"') {
                                                Err(at(ErrorKind::ExpectedStringLiteral, lspan))
                                            } else if stream@.len() > 1 {
                                                Err(at(ErrorKind::UnexpectedTokenInEnv, token_span(stream@[1])))
                                            } else {
                                                prepend(
                                                    seq![SegmentView::Env { name: unquote(lit@), span: lspan }],
                                                    parse_spec(toks, pos + 3, depth),
                                                )
                                            }
                                        },
                                        other => Err(at(ErrorKind::ExpectedStringLiteral, token_span(other))),
                                    }
                                }
                            },
                            other => Err(at(ErrorKind::ExpectedParen, token_span(other))),
                        }
                    }
                } else {
                    prepend(seq![SegmentView::Text { value: frag, span }], parse_spec(toks, pos + 1, depth))
                }
            },
            Token::Literal { text, span } => {
                prepend(seq![SegmentView::Text { value: text@, span }], parse_spec(toks, pos + 1, depth))
            },
            Token::Punct { ch, span } => {
                if ch == '_' || ch == '#' {
                    prepend(seq![SegmentView::Text { value: seq![ch], span }], parse_spec(toks, pos + 1, depth))
                } else if ch == '\'' {
                    prepend(seq![SegmentView::Apostrophe { span }], parse_spec(toks, pos + 1, depth))
                } else if ch == ':' {
                    if pos + 1 >= toks.len() {
                        Err(at(ErrorKind::ExpectedIdentAfterColon, span))
                    } else {
                        match toks[pos + 1] {
                            Token::Ident { text: name, span: nspan } => {
                                if name@ == "replace"@ {
                                    if pos + 2 < toks.len() {
                                        match toks[pos + 2] {
                                            Token::Group { delimiter: Delimiter::Parenthesis, stream, span: gspan } => {
                                                prepend(
                                                    seq![SegmentView::Replace { colon: span, args: stream@, span: gspan }],
                                                    parse_spec(toks, pos + 3, depth),
                                                )
                                            },
                                            _ => Err(between(ErrorKind::ExpectedParenAfterReplace, span, nspan)),
                                        }
                                    } else {
                                        Err(between(ErrorKind::ExpectedParenAfterReplace, span, nspan))
                                    }
                                } else {
                                    prepend(
                                        seq![SegmentView::Modifier { colon: span, name: name@, span: nspan }],
                                        parse_spec(toks, pos + 2, depth),
                                    )
                                }
                            },
                            other => Err(at(ErrorKind::ExpectedIdentAfterColon, token_span(other))),
                        }
                    }
                } else {
                    Err(at(ErrorKind::UnexpectedPunct, span))
                }
            },
            Token::Group { delimiter, stream, span } => {
                if delimiter == Delimiter::Transparent && depth >= MAX_GROUP_DEPTH {
                    Err(at(ErrorKind::NestingTooDeep, span))
                } else if delimiter == Delimiter::Transparent {
                    match parse_spec(stream@, 0, depth + 1) {
                        Ok((inner, stop)) => {
                            if stop < stream@.len() {
                                Err(at(ErrorKind::UnexpectedToken, token_span(stream@[stop])))
                            } else {
                                prepend(inner, parse_spec(toks, pos + 1, depth))
                            }
                        },
                        Err(e) => Err(e),
                    }
                } else {
                    Err(at(ErrorKind::UnexpectedToken, span))
                }
            },
        }
    }
}

proof fn lemma_prepend_assoc(a: Seq<SegmentView>, b: Seq<SegmentView>, rest: Result<(Seq<SegmentView>, int), ErrorView>)
    ensures
        prepend(a, prepend(b, rest)) == prepend(a + b, rest),
{
    match rest {
        Ok((segs, stop)) => {
            assert(a + (b + segs) =~= (a + b) + segs);
        },
        Err(e) => {},
    }
}

/// The view of an executable parse result.
pub open spec fn parsed_view<'a>(r: Result<(Vec<Segment<'a>>, usize), PasteError>) -> Result<(Seq<SegmentView>, int), ErrorView> {
    match r {
        Ok((segs, stop)) => Ok((segs_view(segs@), stop as int)),
        Err(e) => Err(e@),
    }
}

/// An identifier's text without the raw-identifier prefix `r#`.
fn strip_raw_text(text: &String) -> (r: String)
    ensures
        r@ == strip_raw(text@),
{
    let n = text.as_str().unicode_len();
    if n >= 2 && text.as_str().get_char(0) == 'r' && text.as_str().get_char(1) == '#' {
        String::from_str(text.as_str().substring_char(2, n))
    } else {
        text.clone()
    }
}

/// Whether `text` is at least two characters long and starts and ends with `q`.
pub fn quoted(text: &str, q: char) -> (r: bool)
    ensures
        r == is_quoted(text@, q),
{
    let n = text.unicode_len();
    n >= 2 && text.get_char(0) == q && text.get_char(n - 1) == q
}

/// The text between the quotes of a quoted literal.
pub fn unquoted(text: &str) -> (r: String)
    requires
        text@.len() >= 2,
    ensures
        r@ == unquote(text@),
{
    let n = text.unicode_len();
    String::from_str(text.substring_char(1, n - 1))
}

/// Parses `tokens` from position `start` up to the end or to a `>`, which
/// is left in place. Returns the segments and the position where reading
/// stopped, or the first failure. `depth` is the number of transparent groups
/// around `tokens`. A transparent group is parsed in place, must be read to
/// its end, and may not take the depth beyond `MAX_GROUP_DEPTH`.
pub fn parse_from<'a>(tokens: &'a Vec<Token>, start: usize, depth: usize) -> (r: Result<(Vec<Segment<'a>>, usize), PasteError>)
    requires
        depth <= MAX_GROUP_DEPTH,
    ensures
        parsed_view(r) == parse_spec(tokens@, start as int, depth as int),
    decreases tokens@, tokens@.len() - start,
{
    let n = tokens.len();
    let mut segs: Vec<Segment<'a>> = Vec::new();
    let mut pos = start;
    if pos > n {
        assert(segs_view(segs@) =~= Seq::<SegmentView>::empty());
        return Ok((segs, pos));
    }
    loop
        invariant
            n == tokens@.len(),
            start <= pos <= n,
            parse_spec(tokens@, start as int, depth as int) == prepend(segs_view(segs@), parse_spec(tokens@, pos as int, depth as int)),
            depth <= MAX_GROUP_DEPTH,
        decreases n - pos,
    {
        if pos >= n || tokens[pos].is_punct('>') {
            assert(segs_view(segs@) + Seq::<SegmentView>::empty() =~= segs_view(segs@));
            return Ok((segs, pos));
        }
        let ghost before = segs_view(segs@);
        let ghost old_pos = pos as int;
        let ghost mut added: Seq<SegmentView> = Seq::empty();
        let tok: &'a Token = &tokens[pos];
        match tok {
            Token::Ident { text, span } => {
                let frag = strip_raw_text(text);
                if same_text(frag.as_str(), "env") && pos + 1 < n && tokens[pos + 1].is_punct('!') {
                    if pos + 2 >= n {
                        return Err(PasteError::between(ErrorKind::ExpectedParenAfterEnv, *span, tokens[pos + 1].span()));
                    }
                    match &tokens[pos + 2] {
                        Token::Group { delimiter: Delimiter::Parenthesis, stream, span: gspan } => {
                            if stream.len() == 0 {
                                return Err(PasteError::between(ErrorKind::ExpectedEnvArgument, *span, *gspan));
                            }
                            match &stream[0] {
                                Token::Literal { text: lit, span: lspan } => {
                                    if !quoted(lit.as_str(), '"') {
                                        return Err(PasteError::at(ErrorKind::ExpectedStringLiteral, *lspan));
                                    }
                                    if stream.len() > 1 {
                                        return Err(PasteError::at(ErrorKind::UnexpectedTokenInEnv, stream[1].span()));
                                    }
                                    let name = unquoted(lit.as_str());
                                    segs.push(Segment::Env { name, span: *lspan });
                                    pos = pos + 3;
                                    proof {
                                        added = seq![segs@.last()@];
                                    }
                                },
                                other => {
                                    return Err(PasteError::at(ErrorKind::ExpectedStringLiteral, other.span()));
                                },
                            }
                        },
                        other => {
                            return Err(PasteError::at(ErrorKind::ExpectedParen, other.span()));
                        },
                    }
                } else {
                    segs.push(Segment::Text { value: frag, span: *span });
                    pos = pos + 1;
                    proof {
                        added = seq![segs@.last()@];
                    }
                }
            },
            Token::Literal { text, span } => {
                segs.push(Segment::Text { value: text.clone(), span: *span });
                pos = pos + 1;
                proof {
                    added = seq![segs@.last()@];
                }
            },
            Token::Punct { ch, span } => {
                let c = *ch;
                if c == '_' || c == '#' {
                    segs.push(Segment::Text { value: char_to_string(c), span: *span });
                    pos = pos + 1;
                    proof {
                        added = seq![segs@.last()@];
                    }
                } else if c == '\'' {
                    segs.push(Segment::Apostrophe { span: *span });
                    pos = pos + 1;
                    proof {
                        added = seq![segs@.last()@];
                    }
                } else if c == ':' {
                    if pos + 1 >= n {
                        return Err(PasteError::at(ErrorKind::ExpectedIdentAfterColon, *span));
                    }
                    match &tokens[pos + 1] {
                        Token::Ident { text: name, span: nspan } => {
                            if same_text(name.as_str(), "replace") {
                                if pos + 2 >= n {
                                    return Err(PasteError::between(ErrorKind::ExpectedParenAfterReplace, *span, *nspan));
                                }
                                match &tokens[pos + 2] {
                                    Token::Group { delimiter: Delimiter::Parenthesis, stream, span: gspan } => {
                                        segs.push(Segment::Replace { colon: *span, args: stream, span: *gspan });
                                        pos = pos + 3;
                                        proof {
                                            added = seq![segs@.last()@];
                                        }
                                    },
                                    _ => {
                                        return Err(PasteError::between(ErrorKind::ExpectedParenAfterReplace, *span, *nspan));
                                    },
                                }
                            } else {
                                segs.push(Segment::Modifier { colon: *span, name: name.clone(), span: *nspan });
                                pos = pos + 2;
                                proof {
                                    added = seq![segs@.last()@];
                                }
                            }
                        },
                        other => {
                            return Err(PasteError::at(ErrorKind::ExpectedIdentAfterColon, other.span()));
                        },
                    }
                } else {
                    return Err(PasteError::at(ErrorKind::UnexpectedPunct, *span));
                }
            },
            Token::Group { delimiter, stream, span } => {
                if *delimiter == Delimiter::Transparent && depth >= MAX_GROUP_DEPTH {
                    return Err(PasteError::at(ErrorKind::NestingTooDeep, *span));
                } else if *delimiter == Delimiter::Transparent {
                    match parse_from(stream, 0, depth + 1) {
                        Ok((inner, stop)) => {
                            if stop < stream.len() {
                                return Err(PasteError::at(ErrorKind::UnexpectedToken, stream[stop].span()));
                            }
                            let mut inner = inner;
                            let ghost inner_view = segs_view(inner@);
                            segs.append(&mut inner);
                            assert(segs_view(segs@) =~= before + inner_view);
                            pos = pos + 1;
                            proof {
                                added = inner_view;
                            }
                        },
                        Err(e) => {
                            return Err(e);
                        },
                    }
                } else {
                    return Err(PasteError::at(ErrorKind::UnexpectedToken, *span));
                }
            },
        }
        proof {
            assert(segs_view(segs@) =~= before + added);
            assert(parse_spec(tokens@, old_pos, depth as int) == prepend(added, parse_spec(tokens@, pos as int, depth as int)));
            lemma_prepend_assoc(before, added, parse_spec(tokens@, pos as int, depth as int));
        }
    }
}

/// Parses a whole paste expression from the start of `tokens`: the segments
/// and the position of the `>` that ended it (or the end of `tokens`), or
/// the first failure.
pub fn parse<'a>(tokens: &'a Vec<Token>) -> (r: Result<(Vec<Segment<'a>>, usize), PasteError>)
    ensures
        parsed_view(r) == parse_spec(tokens@, 0, 0),
{
    parse_from(tokens, 0, 0)
}

} // verus!
