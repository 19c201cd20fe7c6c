//! The invocation grammars' common parsing machinery: keyword tests,
//! balanced angle-bracket scanning, type-region scanning and dotted-path
//! parsing over the token model.  Every parser is pinned to a total
//! specification-level mirror over the token sequence.

use vstd::prelude::*;

use crate::locate::{ScopeTree, TraitCode, TraitSpec};
use crate::model::{InterfaceItem, OperationSignature, Param, PathSeg, RawArg, ReturnShape};
use crate::tokens::{toks_text, Delim, Tok};

verus! {

/// A parameter at specification level.
pub struct GParam {
    pub name: Seq<char>,
    pub ty: Seq<char>,
}

/// A return shape at specification level.
pub enum GRet {
    Void,
    Typed(Seq<char>),
}

/// A canonical operation signature at specification level.
pub struct GSig {
    pub is_const: bool,
    pub is_async: bool,
    pub is_unsafe: bool,
    pub abi: Option<Seq<char>>,
    pub receiver: crate::model::ReceiverKind,
    pub name: Seq<char>,
    pub generics: Seq<char>,
    pub params: Seq<GParam>,
    pub ret: GRet,
}

/// An interface item at specification level.
pub enum GItem {
    Operation(GSig),
    AssociatedType { name: Seq<char>, generics: Seq<char> },
    AssociatedConstant { name: Seq<char>, ty: Seq<char> },
    Unsupported,
}

/// A grammar failure at specification level.
pub struct GErr {
    pub msg: Seq<char>,
    pub pos: int,
}

/// The view of a parameter.
pub open spec fn param_view(p: Param) -> GParam {
    GParam { name: p.name@, ty: p.ty@ }
}

/// The view of a return shape.
pub open spec fn ret_view(r: ReturnShape) -> GRet {
    match r {
        ReturnShape::Void => GRet::Void,
        ReturnShape::Typed(t) => GRet::Typed(t@),
    }
}

/// The view of a canonical signature.
pub open spec fn sig_view(s: OperationSignature) -> GSig {
    GSig {
        is_const: s.qualifiers.is_const,
        is_async: s.qualifiers.is_async,
        is_unsafe: s.qualifiers.is_unsafe,
        abi: match s.qualifiers.abi {
            Some(a) => Some(a@),
            None => None,
        },
        receiver: s.receiver,
        name: s.name@,
        generics: s.generics@,
        params: s.params@.map_values(|p: Param| param_view(p)),
        ret: ret_view(s.ret),
    }
}

/// The view of an interface item.
pub open spec fn item_view(it: InterfaceItem) -> GItem {
    match it {
        InterfaceItem::Operation(s) => GItem::Operation(sig_view(s)),
        InterfaceItem::AssociatedType { name, generics } => GItem::AssociatedType {
            name: name@,
            generics: generics@,
        },
        InterfaceItem::AssociatedConstant { name, ty } => GItem::AssociatedConstant {
            name: name@,
            ty: ty@,
        },
        InterfaceItem::Unsupported => GItem::Unsupported,
    }
}

/// The view of a raw argument.
pub open spec fn arg_view(a: RawArg) -> GArg {
    match a {
        RawArg::Receiver(k) => GArg::Recv(k),
        RawArg::Binding { name, ty } => GArg::ParamArg(GParam { name: name@, ty: ty@ }),
    }
}

/// One parsed argument at specification level: a receiver form, or an
/// ordinary binding.
pub enum GArg {
    Recv(crate::model::ReceiverKind),
    ParamArg(GParam),
}

/// Whether a token is the bare identifier `kw`.
pub open spec fn is_kw(t: Tok, kw: Seq<char>) -> bool {
    t is Ident && t->Ident_0@ == kw
}

/// Check whether a token is the bare identifier `kw`.
pub fn tok_is_kw(t: &Tok, kw: &str) -> (r: bool)
    ensures
        r == is_kw(*t, kw@),
{
    match t {
        Tok::Ident(s) => crate::text::str_is(s, kw),
        _ => false,
    }
}

/// Whether a token is the punctuation character `c`.
pub open spec fn is_punct(t: Tok, c: char) -> bool {
    t is Punct && t->Punct_0 == c
}

/// The position just past the angle-bracketed region opening at `pos`
/// (`depth` brackets already open), or `None` when it never closes.
pub open spec fn spec_scan_angles(ts: Seq<Tok>, pos: int, depth: int) -> Option<int>
    decreases ts.len() - pos,
{
    if pos < 0 || pos >= ts.len() {
        None
    } else if is_punct(ts[pos], '<') {
        spec_scan_angles(ts, pos + 1, depth + 1)
    } else if is_punct(ts[pos], '>') {
        if depth <= 1 {
            Some(pos + 1)
        } else {
            spec_scan_angles(ts, pos + 1, depth - 1)
        }
    } else {
        spec_scan_angles(ts, pos + 1, depth)
    }
}

/// A successful angle scan always moves forward and stays in bounds.
pub proof fn lemma_scan_angles_bounds(ts: Seq<Tok>, pos: int, depth: int)
    requires
        spec_scan_angles(ts, pos, depth) is Some,
    ensures
        pos < spec_scan_angles(ts, pos, depth)->0 <= ts.len(),
    decreases ts.len() - pos,
{
    if 0 <= pos < ts.len() {
        if is_punct(ts[pos], '<') {
            lemma_scan_angles_bounds(ts, pos + 1, depth + 1);
        } else if is_punct(ts[pos], '>') {
            if depth > 1 {
                lemma_scan_angles_bounds(ts, pos + 1, depth - 1);
            }
        } else {
            lemma_scan_angles_bounds(ts, pos + 1, depth);
        }
    }
}

/// Scan past a balanced angle-bracketed region opening at `pos`.
#[verifier::loop_isolation(false)]
pub fn scan_angles(ts: &Vec<Tok>, pos: usize) -> (r: Option<usize>)
    requires
        pos <= ts@.len(),
    ensures
        match spec_scan_angles(ts@, pos as int, 0) {
            Some(e) => r == Some(e as usize) && pos < e <= ts@.len(),
            None => r is None,
        },
{
    let mut cur: usize = pos;
    let mut depth: usize = 0;
    while cur < ts.len()
        invariant
            pos <= cur <= ts@.len(),
            depth <= cur,
            spec_scan_angles(ts@, pos as int, 0) == spec_scan_angles(
                ts@,
                cur as int,
                depth as int,
            ),
        decreases ts@.len() - cur,
    {
        match &ts[cur] {
            Tok::Punct(c) => {
                if *c == '<' {
                    depth = depth + 1;
                } else if *c == '>' {
                    if depth <= 1 {
                        proof {
                            lemma_scan_angles_bounds(ts@, pos as int, 0);
                        }
                        return Some(cur + 1);
                    }
                    depth = depth - 1;
                }
            },
            _ => {},
        }
        cur = cur + 1;
    }
    None
}

/// Which tokens end a type region at bracket depth zero.
#[derive(Clone, Copy, PartialEq, Eq, Structural, Debug)]
pub struct StopSet {
    pub kw_for: bool,
    pub kw_as: bool,
    pub kw_in: bool,
    pub kw_where: bool,
    pub kw_type: bool,
    pub kw_const: bool,
    pub arrow: bool,
    pub semi: bool,
    pub comma: bool,
    pub eq: bool,
    pub brace: bool,
}

/// Whether a token ends the region under the given stop set.
pub open spec fn is_stop(t: Tok, s: StopSet) -> bool {
    ||| (s.kw_for && is_kw(t, "for"@))
    ||| (s.kw_as && is_kw(t, "as"@))
    ||| (s.kw_in && is_kw(t, "in"@))
    ||| (s.kw_where && is_kw(t, "where"@))
    ||| (s.kw_type && is_kw(t, "type"@))
    ||| (s.kw_const && is_kw(t, "const"@))
    ||| (s.arrow && t is Arrow)
    ||| (s.semi && is_punct(t, ';'))
    ||| (s.comma && is_punct(t, ','))
    ||| (s.eq && is_punct(t, '='))
    ||| (s.brace && t is Group && t->Group_0 is Brace)
}

/// Check whether a token ends the region under the given stop set.
pub fn tok_is_stop(t: &Tok, s: &StopSet) -> (r: bool)
    ensures
        r == is_stop(*t, *s),
{
    if s.kw_for && tok_is_kw(t, "for") {
        return true;
    }
    if s.kw_as && tok_is_kw(t, "as") {
        return true;
    }
    if s.kw_in && tok_is_kw(t, "in") {
        return true;
    }
    if s.kw_where && tok_is_kw(t, "where") {
        return true;
    }
    if s.kw_type && tok_is_kw(t, "type") {
        return true;
    }
    if s.kw_const && tok_is_kw(t, "const") {
        return true;
    }
    if s.arrow && matches!(t, Tok::Arrow) {
        return true;
    }
    match t {
        Tok::Punct(c) => {
            if s.semi && *c == ';' {
                return true;
            }
            if s.comma && *c == ',' {
                return true;
            }
            if s.eq && *c == '=' {
                return true;
            }
        },
        Tok::Group(d, _) => {
            if s.brace && matches!(d, Delim::Brace) {
                return true;
            }
        },
        _ => {},
    }
    false
}

/// The end of the region starting at `pos`: the first position at
/// angle-bracket depth zero holding a stop token, or the end of the
/// stream.
pub open spec fn spec_scan_region(ts: Seq<Tok>, pos: int, depth: int, s: StopSet) -> int
    decreases ts.len() - pos,
{
    if pos < 0 {
        0
    } else if pos >= ts.len() {
        ts.len() as int
    } else if depth == 0 && is_stop(ts[pos], s) {
        pos
    } else if is_punct(ts[pos], '<') {
        spec_scan_region(ts, pos + 1, depth + 1, s)
    } else if is_punct(ts[pos], '>') && depth > 0 {
        spec_scan_region(ts, pos + 1, depth - 1, s)
    } else {
        spec_scan_region(ts, pos + 1, depth, s)
    }
}

/// A region scan never moves backwards and stays in bounds.
pub proof fn lemma_scan_region_bounds(ts: Seq<Tok>, pos: int, depth: int, s: StopSet)
    requires
        0 <= pos <= ts.len(),
    ensures
        pos <= spec_scan_region(ts, pos, depth, s) <= ts.len(),
    decreases ts.len() - pos,
{
    if pos < ts.len() {
        if depth == 0 && is_stop(ts[pos], s) {
        } else if is_punct(ts[pos], '<') {
            lemma_scan_region_bounds(ts, pos + 1, depth + 1, s);
        } else if is_punct(ts[pos], '>') && depth > 0 {
            lemma_scan_region_bounds(ts, pos + 1, depth - 1, s);
        } else {
            lemma_scan_region_bounds(ts, pos + 1, depth, s);
        }
    }
}

/// Scan to the end of the region starting at `pos`.
#[verifier::loop_isolation(false)]
pub fn scan_region(ts: &Vec<Tok>, pos: usize, s: &StopSet) -> (r: usize)
    requires
        pos <= ts@.len(),
    ensures
        r == spec_scan_region(ts@, pos as int, 0, *s),
        pos <= r <= ts@.len(),
{
    let mut cur: usize = pos;
    let mut depth: usize = 0;
    while cur < ts.len()
        invariant
            pos <= cur <= ts@.len(),
            depth <= cur,
            spec_scan_region(ts@, pos as int, 0, *s) == spec_scan_region(
                ts@,
                cur as int,
                depth as int,
                *s,
            ),
        decreases ts@.len() - cur,
    {
        if depth == 0 && tok_is_stop(&ts[cur], s) {
            proof {
                lemma_scan_region_bounds(ts@, pos as int, 0, *s);
            }
            return cur;
        }
        match &ts[cur] {
            Tok::Punct(c) => {
                if *c == '<' {
                    depth = depth + 1;
                } else if *c == '>' && depth > 0 {
                    depth = depth - 1;
                }
            },
            _ => {},
        }
        cur = cur + 1;
    }
    ts.len()
}

/// One path segment at specification level: the identifier and the
/// rendered argument text.
pub struct GSeg {
    pub ident: Seq<char>,
    pub args: Seq<char>,
}

/// The views of a parsed path's segments.
pub open spec fn segs_view(p: Seq<PathSeg>) -> Seq<GSeg> {
    p.map_values(|s: PathSeg| GSeg { ident: s.ident@, args: s.args@ })
}

/// A dotted path starting at `pos`: segments of an identifier and an
/// optional balanced angle-bracketed argument list, joined by the path
/// separator.  `None` when `pos` does not hold an identifier or an
/// argument list never closes.
pub open spec fn spec_parse_path(ts: Seq<Tok>, pos: int, acc: Seq<GSeg>) -> Option<
    (Seq<GSeg>, int),
>
    decreases ts.len() - pos,
    via spec_parse_path_dec
{
    if pos < 0 || pos >= ts.len() || !(ts[pos] is Ident) {
        None
    } else {
        let ident = ts[pos]->Ident_0@;
        if pos + 1 < ts.len() && is_punct(ts[pos + 1], '<') {
            match spec_scan_angles(ts, pos + 1, 0) {
                Some(e) => {
                    let seg = GSeg { ident, args: toks_text(ts.subrange(pos + 1, e)) };
                    if e < ts.len() && ts[e] is PathSep {
                        spec_parse_path(ts, e + 1, acc.push(seg))
                    } else {
                        Some((acc.push(seg), e))
                    }
                },
                None => None,
            }
        } else {
            let seg = GSeg { ident, args: Seq::empty() };
            if pos + 1 < ts.len() && ts[pos + 1] is PathSep {
                spec_parse_path(ts, pos + 2, acc.push(seg))
            } else {
                Some((acc.push(seg), pos + 1))
            }
        }
    }
}

#[via_fn]
proof fn spec_parse_path_dec(ts: Seq<Tok>, pos: int, acc: Seq<GSeg>) {
    if 0 <= pos < ts.len() && ts[pos] is Ident && pos + 1 < ts.len() && is_punct(
        ts[pos + 1],
        '<',
    ) {
        if spec_scan_angles(ts, pos + 1, 0) is Some {
            lemma_scan_angles_bounds(ts, pos + 1, 0);
        }
    }
}

/// Check whether the token at `i` is the punctuation `c`.
pub fn punct_at(ts: &Vec<Tok>, i: usize, c: char) -> (r: bool)
    ensures
        r == (i < ts@.len() && is_punct(ts@[i as int], c)),
{
    if i >= ts.len() {
        return false;
    }
    match &ts[i] {
        Tok::Punct(p) => *p == c,
        _ => false,
    }
}

/// Check whether the token at `i` is the path separator.
pub fn pathsep_at(ts: &Vec<Tok>, i: usize) -> (r: bool)
    ensures
        r == (i < ts@.len() && ts@[i as int] is PathSep),
{
    if i >= ts.len() {
        return false;
    }
    matches!(&ts[i], Tok::PathSep)
}

/// Parse a dotted path starting at `pos`, returning the segments and the
/// position just past the path.
#[verifier::loop_isolation(false)]
pub fn parse_path(ts: &Vec<Tok>, pos: usize) -> (r: Option<(Vec<PathSeg>, usize)>)
    requires
        pos <= ts@.len(),
    ensures
        match spec_parse_path(ts@, pos as int, Seq::empty()) {
            Some(pr) => r is Some && segs_view((r->0).0@) == pr.0 && (r->0).1 == pr.1 && pos
                < pr.1 <= ts@.len(),
            None => r is None,
        },
{
    let mut acc: Vec<PathSeg> = Vec::new();
    proof {
        assert(segs_view(acc@) =~= Seq::<GSeg>::empty());
    }
    let mut cur: usize = pos;
    loop
        invariant
            pos <= cur <= ts@.len(),
            spec_parse_path(ts@, pos as int, Seq::empty()) == spec_parse_path(
                ts@,
                cur as int,
                segs_view(acc@),
            ),
        decreases ts@.len() - cur,
    {
        if cur >= ts.len() {
            return None;
        }
        let ident: String = match &ts[cur] {
            Tok::Ident(s) => s.clone(),
            _ => {
                return None;
            },
        };
        let seg: PathSeg;
        let next: usize;
        if punct_at(ts, cur + 1, '<') {
            match scan_angles(ts, cur + 1) {
                Some(e) => {
                    let args = crate::tokens::render_slice(ts, cur + 1, e);
                    seg = PathSeg { ident, args };
                    next = e;
                },
                None => {
                    return None;
                },
            }
        } else {
            seg = PathSeg { ident, args: String::new() };
            next = cur + 1;
        }
        let ghost old_view: Seq<GSeg> = segs_view(acc@);
        let ghost gseg: GSeg = GSeg { ident: seg.ident@, args: seg.args@ };
        acc.push(seg);
        proof {
            assert(segs_view(acc@) =~= old_view.push(gseg));
        }
        if pathsep_at(ts, next) {
            cur = next + 1;
        } else {
            return Some((acc, next));
        }
    }
}

/// The stop set that splits an argument list at top-level commas.
pub open spec fn comma_stops() -> StopSet {
    StopSet {
        kw_for: false,
        kw_as: false,
        kw_in: false,
        kw_where: false,
        kw_type: false,
        kw_const: false,
        arrow: false,
        semi: false,
        comma: true,
        eq: false,
        brace: false,
    }
}

/// Build the comma stop set.
pub fn comma_stops_x() -> (r: StopSet)
    ensures
        r == comma_stops(),
{
    StopSet {
        kw_for: false,
        kw_as: false,
        kw_in: false,
        kw_where: false,
        kw_type: false,
        kw_const: false,
        arrow: false,
        semi: false,
        comma: true,
        eq: false,
        brace: false,
    }
}

/// Classify one argument, written over the tokens from `a` (inclusive) to
/// `b` (exclusive): a receiver in any of its surface forms, or a
/// `name: Type` binding with an optional leading mutability marker.
pub open spec fn classify_arg(gs: Seq<Tok>, a: int, b: int) -> Option<GArg> {
    let n = b - a;
    if n == 1 && is_kw(gs[a], "self"@) {
        Some(GArg::Recv(crate::model::ReceiverKind::ByValue))
    } else if n == 2 && is_kw(gs[a], "mut"@) && is_kw(gs[a + 1], "self"@) {
        Some(GArg::Recv(crate::model::ReceiverKind::ByValue))
    } else if n == 2 && is_punct(gs[a], '&') && is_kw(gs[a + 1], "self"@) {
        Some(GArg::Recv(crate::model::ReceiverKind::ByRef))
    } else if n == 3 && is_punct(gs[a], '&') && gs[a + 1] is Lifetime && is_kw(
        gs[a + 2],
        "self"@,
    ) {
        Some(GArg::Recv(crate::model::ReceiverKind::ByRef))
    } else if n == 3 && is_punct(gs[a], '&') && is_kw(gs[a + 1], "mut"@) && is_kw(
        gs[a + 2],
        "self"@,
    ) {
        Some(GArg::Recv(crate::model::ReceiverKind::ByMutRef))
    } else if n == 4 && is_punct(gs[a], '&') && gs[a + 1] is Lifetime && is_kw(
        gs[a + 2],
        "mut"@,
    ) && is_kw(gs[a + 3], "self"@) {
        Some(GArg::Recv(crate::model::ReceiverKind::ByMutRef))
    } else {
        let o = if n >= 1 && is_kw(gs[a], "mut"@) {
            a + 1
        } else {
            a
        };
        if b - o >= 2 && gs[o] is Ident && is_punct(gs[o + 1], ':') {
            Some(
                GArg::ParamArg(
                    GParam { name: gs[o]->Ident_0@, ty: toks_text(gs.subrange(o + 2, b)) },
                ),
            )
        } else {
            None
        }
    }
}

/// Classify one argument of the list.
pub fn classify_arg_x(gs: &Vec<Tok>, a: usize, b: usize) -> (r: Option<RawArg>)
    requires
        a <= b <= gs@.len(),
    ensures
        match classify_arg(gs@, a as int, b as int) {
            Some(ga) => r is Some && arg_view(r->0) == ga,
            None => r is None,
        },
{
    let n: usize = b - a;
    if n == 1 && tok_is_kw(&gs[a], "self") {
        Some(RawArg::Receiver(crate::model::ReceiverKind::ByValue))
    } else if n == 2 && tok_is_kw(&gs[a], "mut") && tok_is_kw(&gs[a + 1], "self") {
        Some(RawArg::Receiver(crate::model::ReceiverKind::ByValue))
    } else if n == 2 && punct_at(gs, a, '&') && tok_is_kw(&gs[a + 1], "self") {
        Some(RawArg::Receiver(crate::model::ReceiverKind::ByRef))
    } else if n == 3 && punct_at(gs, a, '&') && matches!(&gs[a + 1], Tok::Lifetime(_))
        && tok_is_kw(&gs[a + 2], "self") {
        Some(RawArg::Receiver(crate::model::ReceiverKind::ByRef))
    } else if n == 3 && punct_at(gs, a, '&') && tok_is_kw(&gs[a + 1], "mut") && tok_is_kw(
        &gs[a + 2],
        "self",
    ) {
        Some(RawArg::Receiver(crate::model::ReceiverKind::ByMutRef))
    } else if n == 4 && punct_at(gs, a, '&') && matches!(&gs[a + 1], Tok::Lifetime(_))
        && tok_is_kw(&gs[a + 2], "mut") && tok_is_kw(&gs[a + 3], "self") {
        Some(RawArg::Receiver(crate::model::ReceiverKind::ByMutRef))
    } else {
        let o: usize = if n >= 1 && tok_is_kw(&gs[a], "mut") {
            a + 1
        } else {
            a
        };
        if b - o >= 2 && matches!(&gs[o], Tok::Ident(_)) && punct_at(gs, o + 1, ':') {
            let name: String = match &gs[o] {
                Tok::Ident(s) => s.clone(),
                _ => String::new(),
            };
            let ty = crate::tokens::render_slice(gs, o + 2, b);
            Some(RawArg::Binding { name, ty })
        } else {
            None
        }
    }
}

/// The arguments of an operation, parsed from the content of its
/// parenthesized group: the regions between top-level commas, each
/// classified; `None` at the first argument of no recognized form.
pub open spec fn spec_parse_args(gs: Seq<Tok>, pos: int, acc: Seq<GArg>) -> Option<Seq<GArg>>
    decreases gs.len() - pos,
    via spec_parse_args_dec
{
    if pos < 0 {
        None
    } else if pos >= gs.len() {
        Some(acc)
    } else {
        let end = spec_scan_region(gs, pos, 0, comma_stops());
        match classify_arg(gs, pos, end) {
            None => None,
            Some(arg) => if end < gs.len() {
                spec_parse_args(gs, end + 1, acc.push(arg))
            } else {
                Some(acc.push(arg))
            },
        }
    }
}

#[via_fn]
proof fn spec_parse_args_dec(gs: Seq<Tok>, pos: int, acc: Seq<GArg>) {
    if 0 <= pos < gs.len() {
        lemma_scan_region_bounds(gs, pos, 0, comma_stops());
    }
}

/// Parse the whole argument list of an operation.
#[verifier::loop_isolation(false)]
pub fn parse_args(gs: &Vec<Tok>) -> (r: Option<Vec<RawArg>>)
    ensures
        match spec_parse_args(gs@, 0, Seq::empty()) {
            Some(ga) => r is Some && r->0@.map_values(|a: RawArg| arg_view(a)) == ga,
            None => r is None,
        },
{
    let mut acc: Vec<RawArg> = Vec::new();
    proof {
        assert(acc@.map_values(|a: RawArg| arg_view(a)) =~= Seq::<GArg>::empty());
    }
    let mut pos: usize = 0;
    let stops = comma_stops_x();
    loop
        invariant
            pos <= gs@.len(),
            spec_parse_args(gs@, 0, Seq::empty()) == spec_parse_args(
                gs@,
                pos as int,
                acc@.map_values(|a: RawArg| arg_view(a)),
            ),
        decreases gs@.len() - pos,
    {
        if pos >= gs.len() {
            return Some(acc);
        }
        let end = scan_region(gs, pos, &stops);
        match classify_arg_x(gs, pos, end) {
            None => {
                return None;
            },
            Some(arg) => {
                let ghost old_view: Seq<GArg> = acc@.map_values(|a: RawArg| arg_view(a));
                let ghost gv: GArg = arg_view(arg);
                acc.push(arg);
                proof {
                    assert(acc@.map_values(|a: RawArg| arg_view(a)) =~= old_view.push(gv));
                }
                if end < gs.len() {
                    pos = end + 1;
                } else {
                    return Some(acc);
                }
            },
        }
    }
}

/// The failure text every grammar reports for a token it cannot place.
pub open spec fn unexpected(pos: int) -> GErr {
    GErr { msg: "unexpected token"@, pos }
}

/// The stop set of a return-type region: the item terminator or a default
/// body.
pub open spec fn ret_stops() -> StopSet {
    StopSet {
        kw_for: false,
        kw_as: false,
        kw_in: false,
        kw_where: false,
        kw_type: false,
        kw_const: false,
        arrow: false,
        semi: true,
        comma: false,
        eq: false,
        brace: true,
    }
}

/// Build the return-type stop set.
pub fn ret_stops_x() -> (r: StopSet)
    ensures
        r == ret_stops(),
{
    StopSet {
        kw_for: false,
        kw_as: false,
        kw_in: false,
        kw_where: false,
        kw_type: false,
        kw_const: false,
        arrow: false,
        semi: true,
        comma: false,
        eq: false,
        brace: true,
    }
}

/// The stop set that looks for an item terminator alone.
pub open spec fn semi_stops() -> StopSet {
    StopSet {
        kw_for: false,
        kw_as: false,
        kw_in: false,
        kw_where: false,
        kw_type: false,
        kw_const: false,
        arrow: false,
        semi: true,
        comma: false,
        eq: false,
        brace: false,
    }
}

/// Build the terminator stop set.
pub fn semi_stops_x() -> (r: StopSet)
    ensures
        r == semi_stops(),
{
    StopSet {
        kw_for: false,
        kw_as: false,
        kw_in: false,
        kw_where: false,
        kw_type: false,
        kw_const: false,
        arrow: false,
        semi: true,
        comma: false,
        eq: false,
        brace: false,
    }
}

/// The stop set of an associated constant's type region: a default value
/// or the item terminator.
pub open spec fn const_ty_stops() -> StopSet {
    StopSet {
        kw_for: false,
        kw_as: false,
        kw_in: false,
        kw_where: false,
        kw_type: false,
        kw_const: false,
        arrow: false,
        semi: true,
        comma: false,
        eq: true,
        brace: false,
    }
}

/// Build the associated-constant type stop set.
pub fn const_ty_stops_x() -> (r: StopSet)
    ensures
        r == const_ty_stops(),
{
    StopSet {
        kw_for: false,
        kw_as: false,
        kw_in: false,
        kw_where: false,
        kw_type: false,
        kw_const: false,
        arrow: false,
        semi: true,
        comma: false,
        eq: true,
        brace: false,
    }
}

/// The receiver kind an argument list declares: the kind of a leading
/// receiver form, `ByValue` for a leading binding named by the receiver
/// keyword, and `Absent` otherwise.
pub open spec fn args_receiver(args: Seq<GArg>) -> crate::model::ReceiverKind {
    if args.len() > 0 {
        match args[0] {
            GArg::Recv(k) => k,
            GArg::ParamArg(p) => if p.name == "self"@ {
                crate::model::ReceiverKind::ByValue
            } else {
                crate::model::ReceiverKind::Absent
            },
        }
    } else {
        crate::model::ReceiverKind::Absent
    }
}

/// Receiver forms may appear only in the leading position.
pub open spec fn args_wf(args: Seq<GArg>) -> bool {
    forall|i: int| 1 <= i < args.len() ==> !((#[trigger] args[i]) is Recv)
}

/// The non-receiver parameters of an argument list, in order.
pub open spec fn args_params(args: Seq<GArg>) -> Seq<GParam> {
    (if args.len() > 0 && (args[0] is Recv || args[0]->ParamArg_0.name == "self"@) {
        args.drop_first()
    } else {
        args
    }).map_values(|a: GArg| a->ParamArg_0)
}

/// The raw-argument helpers and the view-level argument helpers agree on
/// any argument list and its view.
proof fn lemma_args_bridge(raw: Seq<RawArg>, g: Seq<GArg>)
    requires
        raw.len() == g.len(),
        forall|i: int| 0 <= i < raw.len() ==> arg_view(#[trigger] raw[i]) == g[i],
    ensures
        crate::helpers::receiver_kind_of(raw) == args_receiver(g),
        crate::helpers::inputs_wf(raw) <==> args_wf(g),
        crate::helpers::inputs_wf(raw) ==> crate::helpers::params_of(raw).map_values(
            |p: Param| param_view(p),
        ) =~= args_params(g),
{
    if raw.len() > 0 {
        assert(arg_view(raw[0]) == g[0]);
    }
    if crate::helpers::inputs_wf(raw) {
        assert forall|i: int| 1 <= i < g.len() implies !((#[trigger] g[i]) is Recv) by {
            assert(arg_view(raw[i]) == g[i]);
            assert(!(raw[i] is Receiver));
        }
    }
    if args_wf(g) {
        assert forall|i: int| 1 <= i < raw.len() implies !((#[trigger] raw[i]) is Receiver) by {
            assert(arg_view(raw[i]) == g[i]);
            assert(!(g[i] is Recv));
        }
    }
    if crate::helpers::inputs_wf(raw) {
        let nr = crate::helpers::non_receiver_inputs(raw);
        let gr = if g.len() > 0 && (g[0] is Recv || g[0]->ParamArg_0.name == "self"@) {
            g.drop_first()
        } else {
            g
        };
        let dropped = raw.len() > 0 && crate::helpers::is_self_spec(raw[0]);
        assert(nr.len() == gr.len());
        assert forall|i: int|
            0 <= i < nr.len() implies param_view(crate::helpers::param_of(#[trigger] nr[i]))
            == gr[i]->ParamArg_0 by {
            if dropped {
                assert(nr[i] == raw[i + 1]);
                assert(gr[i] == g[i + 1]);
                assert(arg_view(raw[i + 1]) == g[i + 1]);
                assert(!(raw[i + 1] is Receiver));
            } else {
                assert(nr[i] == raw[i]);
                assert(gr[i] == g[i]);
                assert(arg_view(raw[i]) == g[i]);
                if i >= 1 {
                    assert(!(raw[i] is Receiver));
                } else {
                    assert(!(raw[0] is Receiver));
                }
            }
        }
        assert(crate::helpers::params_of(raw).map_values(|p: Param| param_view(p))
            =~= args_params(g));
    }
}

pub struct GQuals {
    pub is_const: bool,
    pub is_async: bool,
    pub is_unsafe: bool,
    pub abi: Option<Seq<char>>,
}

/// The qualifier prefix of an operation declaration, in canonical order,
/// and the position just past it.
pub open spec fn spec_parse_quals(ts: Seq<Tok>, pos: int) -> (GQuals, int) {
    let c_const = pos < ts.len() && is_kw(ts[pos], "const"@);
    let p1 = if c_const { pos + 1 } else { pos };
    let c_async = p1 < ts.len() && is_kw(ts[p1], "async"@);
    let p2 = if c_async { p1 + 1 } else { p1 };
    let c_unsafe = p2 < ts.len() && is_kw(ts[p2], "unsafe"@);
    let p3 = if c_unsafe { p2 + 1 } else { p2 };
    let c_extern = p3 < ts.len() && is_kw(ts[p3], "extern"@);
    let has_lit = c_extern && p3 + 1 < ts.len() && ts[p3 + 1] is LitStr;
    let abi: Option<Seq<char>> = if has_lit {
        Some(ts[p3 + 1]->LitStr_0@)
    } else if c_extern {
        Some(Seq::empty())
    } else {
        None
    };
    let p4 = if has_lit {
        p3 + 2
    } else if c_extern {
        p3 + 1
    } else {
        p3
    };
    (GQuals { is_const: c_const, is_async: c_async, is_unsafe: c_unsafe, abi }, p4)
}

/// The qualifier prefix never moves backwards and stays in bounds.
pub proof fn lemma_parse_quals_bounds(ts: Seq<Tok>, pos: int)
    requires
        0 <= pos <= ts.len(),
    ensures
        pos <= spec_parse_quals(ts, pos).1 <= ts.len(),
{
}

/// Parse the qualifier prefix of an operation declaration.
fn parse_quals(ts: &Vec<Tok>, pos: usize) -> (r: (crate::model::Qualifiers, usize))
    requires
        pos <= ts@.len(),
    ensures
        ({
            let (gq, p4) = spec_parse_quals(ts@, pos as int);
            &&& r.0.is_const == gq.is_const
            &&& r.0.is_async == gq.is_async
            &&& r.0.is_unsafe == gq.is_unsafe
            &&& (match r.0.abi {
                Some(a) => gq.abi is Some && gq.abi->0 == a@,
                None => gq.abi is None,
            })
            &&& r.1 == p4
            &&& pos <= p4 <= ts@.len()
        }),
{
    let len: usize = ts.len();
    let mut p: usize = pos;
    let is_const = p < len && tok_is_kw(&ts[p], "const");
    if is_const {
        p = p + 1;
    }
    let is_async = p < len && tok_is_kw(&ts[p], "async");
    if is_async {
        p = p + 1;
    }
    let is_unsafe = p < len && tok_is_kw(&ts[p], "unsafe");
    if is_unsafe {
        p = p + 1;
    }
    let mut abi: Option<String> = None;
    if p < len && tok_is_kw(&ts[p], "extern") {
        if p + 1 < len && matches!(&ts[p + 1], Tok::LitStr(_)) {
            let lit: String = match &ts[p + 1] {
                Tok::LitStr(s) => s.clone(),
                _ => String::new(),
            };
            abi = Some(lit);
            p = p + 2;
        } else {
            abi = Some(String::new());
            p = p + 1;
        }
    }
    (crate::model::Qualifiers { is_const, is_async, is_unsafe, abi }, p)
}

/// An operation declaration starting at `pos`: optional qualifiers in
/// canonical order, the operation keyword, the name, optional generics,
/// the parenthesized argument list, an optional return type, and a
/// terminator or default body.
pub open spec fn spec_parse_method(ts: Seq<Tok>, pos: int) -> Result<(GSig, int), GErr> {
    let (gq, p4) = spec_parse_quals(ts, pos);
    if !(p4 < ts.len() && is_kw(ts[p4], "fn"@)) {
        Err(unexpected(p4))
    } else if !(p4 + 1 < ts.len() && ts[p4 + 1] is Ident) {
        Err(unexpected(p4 + 1))
    } else {
        let name = ts[p4 + 1]->Ident_0@;
        let gstart = p4 + 2;
        let has_gen = gstart < ts.len() && is_punct(ts[gstart], '<');
        if has_gen && spec_scan_angles(ts, gstart, 0) is None {
            Err(unexpected(gstart))
        } else {
            let generics: Seq<char> = if has_gen {
                toks_text(ts.subrange(gstart, spec_scan_angles(ts, gstart, 0)->0))
            } else {
                Seq::empty()
            };
            let p5 = if has_gen {
                spec_scan_angles(ts, gstart, 0)->0
            } else {
                gstart
            };
            if !(p5 < ts.len() && ts[p5] is Group && ts[p5]->Group_0 is Paren) {
                Err(unexpected(p5))
            } else {
                match spec_parse_args(ts[p5]->Group_1@, 0, Seq::empty()) {
                    None => Err(unexpected(p5)),
                    Some(args) => if !args_wf(args) {
                        Err(unexpected(p5))
                    } else {
                        let p6 = p5 + 1;
                        let has_ret = p6 < ts.len() && ts[p6] is Arrow;
                        let p7 = if has_ret {
                            spec_scan_region(ts, p6 + 1, 0, ret_stops())
                        } else {
                            p6
                        };
                        let ret: GRet = if has_ret {
                            GRet::Typed(toks_text(ts.subrange(p6 + 1, p7)))
                        } else {
                            GRet::Void
                        };
                        let sig = GSig {
                            is_const: gq.is_const,
                            is_async: gq.is_async,
                            is_unsafe: gq.is_unsafe,
                            abi: gq.abi,
                            receiver: args_receiver(args),
                            name,
                            generics,
                            params: args_params(args),
                            ret,
                        };
                        if p7 < ts.len() && is_punct(ts[p7], ';') {
                            Ok((sig, p7 + 1))
                        } else if p7 < ts.len() && ts[p7] is Group && ts[p7]->Group_0 is Brace {
                            Ok((sig, p7 + 1))
                        } else {
                            Err(unexpected(p7))
                        }
                    },
                }
            }
        }
    }
}

/// One interface item starting at `pos`: an associated type, an
/// associated constant, an operation, or a macro-style item (kept as
/// unsupported, to be rejected by the injector, never silently skipped).
pub open spec fn spec_parse_item(ts: Seq<Tok>, pos: int) -> Result<(GItem, int), GErr> {
    if pos < 0 || pos >= ts.len() {
        Err(unexpected(pos))
    } else if is_kw(ts[pos], "type"@) {
        if !(pos + 1 < ts.len() && ts[pos + 1] is Ident) {
            Err(unexpected(pos + 1))
        } else {
            let name = ts[pos + 1]->Ident_0@;
            let gstart = pos + 2;
            let has_gen = gstart < ts.len() && is_punct(ts[gstart], '<');
            if has_gen && spec_scan_angles(ts, gstart, 0) is None {
                Err(unexpected(gstart))
            } else {
                let generics: Seq<char> = if has_gen {
                    toks_text(ts.subrange(gstart, spec_scan_angles(ts, gstart, 0)->0))
                } else {
                    Seq::empty()
                };
                let p5 = if has_gen {
                    spec_scan_angles(ts, gstart, 0)->0
                } else {
                    gstart
                };
                let e = spec_scan_region(ts, p5, 0, semi_stops());
                if e < ts.len() {
                    Ok((GItem::AssociatedType { name, generics }, e + 1))
                } else {
                    Err(unexpected(e))
                }
            }
        }
    } else if is_kw(ts[pos], "const"@) && !(pos + 1 < ts.len() && (is_kw(ts[pos + 1], "fn"@)
        || is_kw(ts[pos + 1], "async"@) || is_kw(ts[pos + 1], "unsafe"@) || is_kw(
        ts[pos + 1],
        "extern"@,
    ))) {
        if !(pos + 1 < ts.len() && ts[pos + 1] is Ident) {
            Err(unexpected(pos + 1))
        } else if !(pos + 2 < ts.len() && is_punct(ts[pos + 2], ':')) {
            Err(unexpected(pos + 2))
        } else {
            let name = ts[pos + 1]->Ident_0@;
            let e1 = spec_scan_region(ts, pos + 3, 0, const_ty_stops());
            let ty = toks_text(ts.subrange(pos + 3, e1));
            let e2 = spec_scan_region(ts, e1, 0, semi_stops());
            if e2 < ts.len() {
                Ok((GItem::AssociatedConstant { name, ty }, e2 + 1))
            } else {
                Err(unexpected(e2))
            }
        }
    } else if is_kw(ts[pos], "const"@) || is_kw(ts[pos], "async"@) || is_kw(ts[pos], "unsafe"@)
        || is_kw(ts[pos], "extern"@) || is_kw(ts[pos], "fn"@) {
        match spec_parse_method(ts, pos) {
            Ok((sig, next)) => Ok((GItem::Operation(sig), next)),
            Err(e) => Err(e),
        }
    } else if ts[pos] is Ident {
        let e = spec_scan_region(ts, pos, 0, semi_stops());
        if e < ts.len() {
            Ok((GItem::Unsupported, e + 1))
        } else {
            Err(unexpected(e))
        }
    } else {
        Err(unexpected(pos))
    }
}

/// A parsed item always ends after its starting position, in bounds.
pub proof fn lemma_parse_item_bounds(ts: Seq<Tok>, pos: int)
    requires
        0 <= pos <= ts.len(),
        spec_parse_item(ts, pos) is Ok,
    ensures
        pos < (spec_parse_item(ts, pos)->Ok_0).1 <= ts.len(),
{
    if pos < ts.len() {
        if is_kw(ts[pos], "type"@) {
            let gstart = pos + 2;
            if gstart < ts.len() && is_punct(ts[gstart], '<') {
                if spec_scan_angles(ts, gstart, 0) is Some {
                    lemma_scan_angles_bounds(ts, gstart, 0);
                    lemma_scan_region_bounds(
                        ts,
                        spec_scan_angles(ts, gstart, 0)->0,
                        0,
                        semi_stops(),
                    );
                }
            } else {
                if gstart <= ts.len() {
                    lemma_scan_region_bounds(ts, gstart, 0, semi_stops());
                }
            }
        } else if is_kw(ts[pos], "const"@) && !(pos + 1 < ts.len() && (is_kw(ts[pos + 1], "fn"@)
            || is_kw(ts[pos + 1], "async"@) || is_kw(ts[pos + 1], "unsafe"@) || is_kw(
            ts[pos + 1],
            "extern"@,
        ))) {
            if pos + 3 <= ts.len() {
                lemma_scan_region_bounds(ts, pos + 3, 0, const_ty_stops());
                lemma_scan_region_bounds(
                    ts,
                    spec_scan_region(ts, pos + 3, 0, const_ty_stops()),
                    0,
                    semi_stops(),
                );
            }
        } else if is_kw(ts[pos], "const"@) || is_kw(ts[pos], "async"@) || is_kw(
            ts[pos],
            "unsafe"@,
        ) || is_kw(ts[pos], "extern"@) || is_kw(ts[pos], "fn"@) {
            lemma_parse_method_bounds(ts, pos);
        } else {
            lemma_scan_region_bounds(ts, pos, 0, semi_stops());
        }
    }
}

/// A parsed operation always ends after its starting position, in bounds.
proof fn lemma_parse_method_bounds(ts: Seq<Tok>, pos: int)
    requires
        0 <= pos <= ts.len(),
        spec_parse_method(ts, pos) is Ok,
    ensures
        pos < (spec_parse_method(ts, pos)->Ok_0).1 <= ts.len(),
{
    let p4 = spec_parse_quals(ts, pos).1;
    lemma_parse_quals_bounds(ts, pos);
    if p4 < ts.len() && is_kw(ts[p4], "fn"@) && p4 + 1 < ts.len() && ts[p4 + 1] is Ident {
        let gstart = p4 + 2;
        let has_gen = gstart < ts.len() && is_punct(ts[gstart], '<');
        if has_gen {
            if spec_scan_angles(ts, gstart, 0) is Some {
                lemma_scan_angles_bounds(ts, gstart, 0);
            }
        }
        let p5 = if has_gen { spec_scan_angles(ts, gstart, 0)->0 } else { gstart };
        if p5 < ts.len() {
            let p6 = p5 + 1;
            if p6 < ts.len() && ts[p6] is Arrow {
                lemma_scan_region_bounds(ts, p6 + 1, 0, ret_stops());
            }
        }
    }
}

/// Build the grammar failure for a token that cannot be placed.
fn unexpected_x(pos: usize) -> (r: crate::errors::SyntaxError)
    ensures
        r.message@ == unexpected(pos as int).msg,
        r.position == pos,
{
    crate::errors::SyntaxError { message: "unexpected token".to_owned(), position: pos }
}

/// Parse one operation declaration starting at `pos`.
#[verifier::rlimit(100)]
#[verifier::spinoff_prover]
fn parse_method(ts: &Vec<Tok>, pos: usize) -> (r: Result<
    (OperationSignature, usize),
    crate::errors::SyntaxError,
>)
    requires
        pos <= ts@.len(),
    ensures
        match spec_parse_method(ts@, pos as int) {
            Ok(pr) => r is Ok && sig_view((r->Ok_0).0) == pr.0 && (r->Ok_0).1 == pr.1 && pr.1 <= ts@.len(),
            Err(e) => r is Err && r->Err_0.message@ == e.msg && r->Err_0.position == e.pos,
        },
{
    let len: usize = ts.len();
    let (quals, p) = parse_quals(ts, pos);
    if !(p < len && tok_is_kw(&ts[p], "fn")) {
        return Err(unexpected_x(p));
    }
    if !(p + 1 < len && matches!(&ts[p + 1], Tok::Ident(_))) {
        return Err(unexpected_x(p + 1));
    }
    let name: String = match &ts[p + 1] {
        Tok::Ident(s) => s.clone(),
        _ => String::new(),
    };
    let gstart: usize = p + 2;
    let generics: String;
    let p5: usize;
    if gstart < len && punct_at(ts, gstart, '<') {
        match scan_angles(ts, gstart) {
            Some(e) => {
                generics = crate::tokens::render_slice(ts, gstart, e);
                p5 = e;
            },
            None => {
                return Err(unexpected_x(gstart));
            },
        }
    } else {
        generics = String::new();
        p5 = gstart;
    }
    if !(p5 < len) {
        return Err(unexpected_x(p5));
    }
    let inputs: Vec<RawArg>;
    match &ts[p5] {
        Tok::Group(Delim::Paren, g) => {
            match parse_args(g) {
                Some(args) => {
                    inputs = args;
                },
                None => {
                    return Err(unexpected_x(p5));
                },
            }
        },
        _ => {
            return Err(unexpected_x(p5));
        },
    }
    let ghost gargs: Seq<GArg> = spec_parse_args(
        ts@[p5 as int]->Group_1@,
        0,
        Seq::empty(),
    )->0;
    proof {
        assert forall|i: int| 0 <= i < inputs@.len() implies arg_view(#[trigger] inputs@[i])
            == gargs[i] by {
            assert(inputs@.map_values(|a: RawArg| arg_view(a))[i] == arg_view(inputs@[i]));
        }
        lemma_args_bridge(inputs@, gargs);
    }
    if !crate::helpers::check_inputs_wf(&inputs) {
        return Err(unexpected_x(p5));
    }
    let p6: usize = p5 + 1;
    let output: ReturnShape;
    let p7: usize;
    if p6 < len && matches!(&ts[p6], Tok::Arrow) {
        let stops = ret_stops_x();
        let e = scan_region(ts, p6 + 1, &stops);
        output = ReturnShape::Typed(crate::tokens::render_slice(ts, p6 + 1, e));
        p7 = e;
    } else {
        output = ReturnShape::Void;
        p7 = p6;
    }
    let terminated: bool = if p7 < len {
        match &ts[p7] {
            Tok::Punct(c) => *c == ';',
            Tok::Group(Delim::Brace, _) => true,
            _ => false,
        }
    } else {
        false
    };
    if !terminated {
        return Err(unexpected_x(p7));
    }
    let crate::model::Qualifiers { is_const, is_async, is_unsafe, abi } = quals;
    let raw = crate::model::RawOperation {
        is_const,
        is_async,
        is_unsafe,
        abi,
        name,
        generics,
        inputs,
        output,
    };
    let sig = crate::helpers::normalize(raw);
    proof {
        let pr = spec_parse_method(ts@, pos as int)->Ok_0;
        assert(sig_view(sig).params =~= pr.0.params);
        assert(sig_view(sig) == pr.0);
    }
    Ok((sig, p7 + 1))
}

/// Parse one interface item starting at `pos`.
#[verifier::rlimit(60)]
pub fn parse_trait_item(ts: &Vec<Tok>, pos: usize) -> (r: Result<
    (InterfaceItem, usize),
    crate::errors::SyntaxError,
>)
    requires
        pos <= ts@.len(),
    ensures
        match spec_parse_item(ts@, pos as int) {
            Ok(pr) => r is Ok && item_view((r->Ok_0).0) == pr.0 && (r->Ok_0).1 == pr.1 && pos
                < pr.1 <= ts@.len(),
            Err(e) => r is Err && r->Err_0.message@ == e.msg && r->Err_0.position == e.pos,
        },
{
    let len: usize = ts.len();
    if pos >= len {
        return Err(unexpected_x(pos));
    }
    proof {
        if spec_parse_item(ts@, pos as int) is Ok {
            lemma_parse_item_bounds(ts@, pos as int);
        }
    }
    if tok_is_kw(&ts[pos], "type") {
        if !(pos + 1 < len && matches!(&ts[pos + 1], Tok::Ident(_))) {
            return Err(unexpected_x(pos + 1));
        }
        let name: String = match &ts[pos + 1] {
            Tok::Ident(s) => s.clone(),
            _ => String::new(),
        };
        let gstart: usize = pos + 2;
        let generics: String;
        let p5: usize;
        if gstart < len && punct_at(ts, gstart, '<') {
            match scan_angles(ts, gstart) {
                Some(e) => {
                    generics = crate::tokens::render_slice(ts, gstart, e);
                    p5 = e;
                },
                None => {
                    return Err(unexpected_x(gstart));
                },
            }
        } else {
            generics = String::new();
            p5 = gstart;
        }
        let stops = semi_stops_x();
        let e = scan_region(ts, p5, &stops);
        if e < len {
            Ok((InterfaceItem::AssociatedType { name, generics }, e + 1))
        } else {
            Err(unexpected_x(e))
        }
    } else if tok_is_kw(&ts[pos], "const") && !(pos + 1 < len && (tok_is_kw(&ts[pos + 1], "fn")
        || tok_is_kw(&ts[pos + 1], "async") || tok_is_kw(&ts[pos + 1], "unsafe") || tok_is_kw(
        &ts[pos + 1],
        "extern",
    ))) {
        if !(pos + 1 < len && matches!(&ts[pos + 1], Tok::Ident(_))) {
            return Err(unexpected_x(pos + 1));
        }
        if !(pos + 2 < len && punct_at(ts, pos + 2, ':')) {
            return Err(unexpected_x(pos + 2));
        }
        let name: String = match &ts[pos + 1] {
            Tok::Ident(s) => s.clone(),
            _ => String::new(),
        };
        let cstops = const_ty_stops_x();
        let e1 = scan_region(ts, pos + 3, &cstops);
        let ty = crate::tokens::render_slice(ts, pos + 3, e1);
        let sstops = semi_stops_x();
        let e2 = scan_region(ts, e1, &sstops);
        if e2 < len {
            Ok((InterfaceItem::AssociatedConstant { name, ty }, e2 + 1))
        } else {
            Err(unexpected_x(e2))
        }
    } else if tok_is_kw(&ts[pos], "const") || tok_is_kw(&ts[pos], "async") || tok_is_kw(
        &ts[pos],
        "unsafe",
    ) || tok_is_kw(&ts[pos], "extern") || tok_is_kw(&ts[pos], "fn") {
        match parse_method(ts, pos) {
            Ok((sig, next)) => Ok((InterfaceItem::Operation(sig), next)),
            Err(e) => Err(e),
        }
    } else if matches!(&ts[pos], Tok::Ident(_)) {
        let stops = semi_stops_x();
        let e = scan_region(ts, pos, &stops);
        if e < len {
            Ok((InterfaceItem::Unsupported, e + 1))
        } else {
            Err(unexpected_x(e))
        }
    } else {
        Err(unexpected_x(pos))
    }
}

/// The whole item list of an interface body, parsed from its braced
/// group's content.
pub open spec fn spec_parse_items(ts: Seq<Tok>, pos: int, acc: Seq<GItem>) -> Result<
    Seq<GItem>,
    GErr,
>
    decreases ts.len() - pos,
    via spec_parse_items_dec
{
    if pos < 0 {
        Err(unexpected(pos))
    } else if pos >= ts.len() {
        Ok(acc)
    } else {
        match spec_parse_item(ts, pos) {
            Err(e) => Err(e),
            Ok((it, next)) => spec_parse_items(ts, next, acc.push(it)),
        }
    }
}

#[via_fn]
proof fn spec_parse_items_dec(ts: Seq<Tok>, pos: int, acc: Seq<GItem>) {
    if 0 <= pos < ts.len() {
        if spec_parse_item(ts, pos) is Ok {
            lemma_parse_item_bounds(ts, pos);
        }
    }
}

/// Parse every item of an interface body.
#[verifier::loop_isolation(false)]
pub fn parse_trait_items(ts: &Vec<Tok>) -> (r: Result<Vec<InterfaceItem>, crate::errors::SyntaxError>)
    ensures
        match spec_parse_items(ts@, 0, Seq::empty()) {
            Ok(gis) => r is Ok && r->Ok_0@.map_values(|it: InterfaceItem| item_view(it)) == gis,
            Err(e) => r is Err && r->Err_0.message@ == e.msg && r->Err_0.position == e.pos,
        },
{
    let mut acc: Vec<InterfaceItem> = Vec::new();
    proof {
        assert(acc@.map_values(|it: InterfaceItem| item_view(it)) =~= Seq::<GItem>::empty());
    }
    let mut pos: usize = 0;
    loop
        invariant
            pos <= ts@.len(),
            spec_parse_items(ts@, 0, Seq::empty()) == spec_parse_items(
                ts@,
                pos as int,
                acc@.map_values(|it: InterfaceItem| item_view(it)),
            ),
        decreases ts@.len() - pos,
    {
        if pos >= ts.len() {
            return Ok(acc);
        }
        match parse_trait_item(ts, pos) {
            Err(e) => {
                return Err(e);
            },
            Ok((it, next)) => {
                let ghost old_view: Seq<GItem> = acc@.map_values(
                    |x: InterfaceItem| item_view(x),
                );
                let ghost gv: GItem = item_view(it);
                acc.push(it);
                proof {
                    assert(acc@.map_values(|x: InterfaceItem| item_view(x)) =~= old_view.push(
                        gv,
                    ));
                }
                pos = next;
            },
        }
    }
}

/// The text of a path at specification level.
pub open spec fn gpath_text(p: Seq<GSeg>) -> Seq<char>
    decreases p.len(),
{
    if p.len() == 0 {
        Seq::empty()
    } else if p.len() == 1 {
        p[0].ident + p[0].args
    } else {
        p[0].ident + p[0].args + "::"@ + gpath_text(p.drop_first())
    }
}

/// Rendering a path agrees with its view-level text.
pub proof fn lemma_path_text_view(p: Seq<PathSeg>)
    ensures
        crate::render::path_text(p) == gpath_text(segs_view(p)),
    decreases p.len(),
{
    if p.len() > 0 {
        lemma_path_text_view(p.drop_first());
        assert(segs_view(p)[0] == GSeg { ident: p[0].ident@, args: p[0].args@ });
        assert(segs_view(p).drop_first() =~= segs_view(p.drop_first()));
    }
}

/// A generation failure at specification level.
pub enum GFail {
    Syntax(GErr),
    Resolution(crate::errors::ResolutionError),
    Structure(crate::errors::StructuralError),
}

/// The view of a generation failure.
pub open spec fn gen_error_view(e: crate::errors::GenError) -> GFail {
    match e {
        crate::errors::GenError::Syntax(s) => GFail::Syntax(
            GErr { msg: s.message@, pos: s.position as int },
        ),
        crate::errors::GenError::Resolution(r) => GFail::Resolution(r),
        crate::errors::GenError::Structure(x) => GFail::Structure(x),
    }
}

/// An interface specification at specification level.
pub struct GTraitSpec {
    pub source: GTraitCode,
    pub alias: Option<Seq<GSeg>>,
}

/// The source of an interface at specification level.
pub enum GTraitCode {
    File { name: Seq<char>, location: Seq<GSeg> },
    Raw { name: Seq<char>, items: Seq<GItem> },
}

/// The view of an interface specification.
pub open spec fn trait_spec_view(t: TraitSpec) -> GTraitSpec {
    GTraitSpec {
        source: match t.source {
            TraitCode::File { name, location } => GTraitCode::File {
                name: name@,
                location: segs_view(location@),
            },
            TraitCode::Raw { name, items } => GTraitCode::Raw {
                name: name@,
                items: items@.map_values(|it: InterfaceItem| item_view(it)),
            },
        },
        alias: match t.alias {
            Some(a) => Some(segs_view(a@)),
            None => None,
        },
    }
}

/// The stop set that skips supertrait bounds up to the interface body.
pub open spec fn brace_stops() -> StopSet {
    StopSet {
        kw_for: false,
        kw_as: false,
        kw_in: false,
        kw_where: false,
        kw_type: false,
        kw_const: false,
        arrow: false,
        semi: false,
        comma: false,
        eq: false,
        brace: true,
    }
}

/// Build the interface-body stop set.
pub fn brace_stops_x() -> (r: StopSet)
    ensures
        r == brace_stops(),
{
    StopSet {
        kw_for: false,
        kw_as: false,
        kw_in: false,
        kw_where: false,
        kw_type: false,
        kw_const: false,
        arrow: false,
        semi: false,
        comma: false,
        eq: false,
        brace: true,
    }
}

/// The source part of an interface specification starting at `pos`: a
/// definition-source file with a dotted location, or an inline interface
/// definition in braces.
pub open spec fn spec_parse_trait_source(ts: Seq<Tok>, pos: int) -> Result<(GTraitCode, int), GErr> {
    if pos >= 0 && pos < ts.len() && ts[pos] is LitStr {
        if pos + 1 < ts.len() && ts[pos + 1] is PathSep {
            match spec_parse_path(ts, pos + 2, Seq::empty()) {
                None => Err(unexpected(pos + 2)),
                Some(pr) => Ok((GTraitCode::File { name: ts[pos]->LitStr_0@, location: pr.0 }, pr.1)),
            }
        } else {
            Err(unexpected(pos + 1))
        }
    } else if pos >= 0 && pos < ts.len() && ts[pos] is Group && ts[pos]->Group_0 is Brace {
        let g = ts[pos]->Group_1@;
        if 0 < g.len() && is_kw(g[0], "trait"@) && 1 < g.len() && g[1] is Ident {
            let name = g[1]->Ident_0@;
            let e = spec_scan_region(g, 2, 0, brace_stops());
            if e < g.len() && g[e] is Group && g[e]->Group_0 is Brace && e + 1 == g.len() {
                match spec_parse_items(g[e]->Group_1@, 0, Seq::empty()) {
                    Err(er) => Err(er),
                    Ok(items) => Ok((GTraitCode::Raw { name, items }, pos + 1)),
                }
            } else {
                Err(unexpected(pos))
            }
        } else {
            Err(unexpected(pos))
        }
    } else {
        Err(unexpected(pos))
    }
}

/// A whole interface specification starting at `pos`: the source, then an
/// optional alias path.
pub open spec fn spec_parse_trait_spec(ts: Seq<Tok>, pos: int) -> Result<(GTraitSpec, int), GErr> {
    match spec_parse_trait_source(ts, pos) {
        Err(e) => Err(e),
        Ok((code, p)) => if p < ts.len() && is_kw(ts[p], "as"@) {
            match spec_parse_path(ts, p + 1, Seq::empty()) {
                None => Err(unexpected(p + 1)),
                Some(pr) => Ok((GTraitSpec { source: code, alias: Some(pr.0) }, pr.1)),
            }
        } else {
            Ok((GTraitSpec { source: code, alias: None }, p))
        },
    }
}

impl TraitSpec {
    /// Parse an interface specification.
    pub fn parse(ts: &Vec<Tok>, pos: usize) -> (r: Result<(TraitSpec, usize), crate::errors::SyntaxError>)
        requires
            pos <= ts@.len(),
        ensures
            match spec_parse_trait_spec(ts@, pos as int) {
                Ok(pr) => r is Ok && trait_spec_view((r->Ok_0).0) == pr.0 && (r->Ok_0).1 == pr.1
                    && pos < pr.1 <= ts@.len(),
                Err(e) => r is Err && r->Err_0.message@ == e.msg && r->Err_0.position == e.pos,
            },
    {
        let len: usize = ts.len();
        let source: TraitCode;
        let p: usize;
        if pos < len && matches!(&ts[pos], Tok::LitStr(_)) {
            if !pathsep_at(ts, pos + 1) {
                return Err(unexpected_x(pos + 1));
            }
            let name: String = match &ts[pos] {
                Tok::LitStr(s) => s.clone(),
                _ => String::new(),
            };
            match parse_path(ts, pos + 2) {
                None => {
                    return Err(unexpected_x(pos + 2));
                },
                Some((segs, e)) => {
                    source = TraitCode::File { name, location: segs };
                    p = e;
                },
            }
        } else if pos < len && matches!(&ts[pos], Tok::Group(Delim::Brace, _)) {
            let items: Vec<InterfaceItem>;
            let name: String;
            match &ts[pos] {
                Tok::Group(Delim::Brace, g) => {
                    if !(0 < g.len() && tok_is_kw(&g[0], "trait") && 1 < g.len() && matches!(
                        &g[1],
                        Tok::Ident(_),
                    )) {
                        return Err(unexpected_x(pos));
                    }
                    name = match &g[1] {
                        Tok::Ident(s) => s.clone(),
                        _ => String::new(),
                    };
                    let stops = brace_stops_x();
                    let e = scan_region(g, 2, &stops);
                    let body_ok: bool = e < g.len() && matches!(&g[e], Tok::Group(Delim::Brace, _))
                        && e + 1 == g.len();
                    if !body_ok {
                        return Err(unexpected_x(pos));
                    }
                    match &g[e] {
                        Tok::Group(Delim::Brace, inner) => {
                            match parse_trait_items(inner) {
                                Err(er) => {
                                    return Err(er);
                                },
                                Ok(v) => {
                                    items = v;
                                },
                            }
                        },
                        _ => {
                            return Err(unexpected_x(pos));
                        },
                    }
                },
                _ => {
                    return Err(unexpected_x(pos));
                },
            }
            source = TraitCode::Raw { name, items };
            p = pos + 1;
        } else {
            return Err(unexpected_x(pos));
        }
        if p < len && tok_is_kw(&ts[p], "as") {
            match parse_path(ts, p + 1) {
                None => Err(unexpected_x(p + 1)),
                Some((segs, e)) => Ok((TraitSpec { source, alias: Some(segs) }, e)),
            }
        } else {
            Ok((TraitSpec { source, alias: None }, p))
        }
    }
}

/// What an interface specification resolves to: the text of its canonical
/// path and its item list, or the exact resolution failure.
pub open spec fn resolve_gtrait(g: GTraitSpec, file: Option<ScopeTree>) -> Result<
    (Seq<char>, Seq<GItem>),
    crate::errors::ResolutionError,
> {
    match g.source {
        GTraitCode::File { name: _, location } => match file {
            None => Err(crate::errors::ResolutionError::DefinitionSourceUnreadable),
            Some(tree) => match crate::locate::spec_resolve(
                tree,
                location.map_values(|s: GSeg| s.ident),
            ) {
                Ok(d) => Ok(
                    (
                        gpath_text(
                            match g.alias {
                                Some(a) => a,
                                None => location,
                            },
                        ),
                        tree.defs@[d].items@.map_values(|it: InterfaceItem| item_view(it)),
                    ),
                ),
                Err(e) => Err(e),
            },
        },
        GTraitCode::Raw { name, items } => Ok(
            (
                (match g.alias {
                    Some(a) => gpath_text(a),
                    None => name,
                }),
                items,
            ),
        ),
    }
}

/// The stop set of a target-type region ending at the strategy keyword.
pub open spec fn in_stops() -> StopSet {
    StopSet {
        kw_for: false,
        kw_as: false,
        kw_in: true,
        kw_where: false,
        kw_type: false,
        kw_const: false,
        arrow: false,
        semi: false,
        comma: false,
        eq: false,
        brace: false,
    }
}

/// Build the same stop set.
pub fn in_stops_x() -> (r: StopSet)
    ensures
        r == in_stops(),
{
    StopSet {
        kw_for: false,
        kw_as: false,
        kw_in: true,
        kw_where: false,
        kw_type: false,
        kw_const: false,
        arrow: false,
        semi: false,
        comma: false,
        eq: false,
        brace: false,
    }
}

/// The stop set of a target-type region ending at a naming or predicate clause.
pub open spec fn as_where_stops() -> StopSet {
    StopSet {
        kw_for: false,
        kw_as: true,
        kw_in: false,
        kw_where: true,
        kw_type: false,
        kw_const: false,
        arrow: false,
        semi: false,
        comma: false,
        eq: false,
        brace: false,
    }
}

/// Build the same stop set.
pub fn as_where_stops_x() -> (r: StopSet)
    ensures
        r == as_where_stops(),
{
    StopSet {
        kw_for: false,
        kw_as: true,
        kw_in: false,
        kw_where: true,
        kw_type: false,
        kw_const: false,
        arrow: false,
        semi: false,
        comma: false,
        eq: false,
        brace: false,
    }
}

/// The stop set of a request-type region ending at the response arrow.
pub open spec fn arrow_stops() -> StopSet {
    StopSet {
        kw_for: false,
        kw_as: false,
        kw_in: false,
        kw_where: false,
        kw_type: false,
        kw_const: false,
        arrow: true,
        semi: false,
        comma: false,
        eq: false,
        brace: false,
    }
}

/// Build the same stop set.
pub fn arrow_stops_x() -> (r: StopSet)
    ensures
        r == arrow_stops(),
{
    StopSet {
        kw_for: false,
        kw_as: false,
        kw_in: false,
        kw_where: false,
        kw_type: false,
        kw_const: false,
        arrow: true,
        semi: false,
        comma: false,
        eq: false,
        brace: false,
    }
}

/// The stop set of a response-type region ending at a predicate clause.
pub open spec fn where_stops() -> StopSet {
    StopSet {
        kw_for: false,
        kw_as: false,
        kw_in: false,
        kw_where: true,
        kw_type: false,
        kw_const: false,
        arrow: false,
        semi: false,
        comma: false,
        eq: false,
        brace: false,
    }
}

/// Build the same stop set.
pub fn where_stops_x() -> (r: StopSet)
    ensures
        r == where_stops(),
{
    StopSet {
        kw_for: false,
        kw_as: false,
        kw_in: false,
        kw_where: true,
        kw_type: false,
        kw_const: false,
        arrow: false,
        semi: false,
        comma: false,
        eq: false,
        brace: false,
    }
}

} // verus!
