//! The file-backed injector entry: the interface always comes from a
//! definition-source file, and the implementation block invokes the chosen
//! adapter once per located item.

use vstd::prelude::*;

use crate::errors::{GenError, ResolutionError, StructuralError, SyntaxError};
use crate::locate::{find_trait_from_file, path_view, spec_resolve, ScopeTree};
use crate::model::{InterfaceItem, PathSeg};
use crate::parse::{
    gen_error_view, gpath_text, in_stops, is_kw, item_view, lemma_path_text_view, segs_view,
    spec_parse_path, unexpected, GErr, GFail, GItem, GSeg,
};
use crate::render::{gimpl_text, ginvocations_from, opt_view};
use crate::tokens::{toks_text, Delim, Tok};

verus! {

/// The parsed arguments of a file-backed injector invocation at
/// specification level.
pub struct GMakeClientArgs {
    pub adapter: Seq<char>,
    pub filename: Seq<char>,
    pub srcpath: Seq<GSeg>,
    pub modpath: Option<Seq<GSeg>>,
    pub target: Seq<char>,
    pub extargs: Option<Seq<char>>,
}

/// A file-backed injector invocation: the implementation keyword, the
/// definition-source file and its dotted location, an optional alias
/// path, the target type, the strategy name, and optional fixed arguments
/// ending the stream.
pub open spec fn spec_parse_make_client_args(ts: Seq<Tok>) -> Result<GMakeClientArgs, GErr> {
    if !(0 < ts.len() && is_kw(ts[0], "impl"@)) {
        Err(unexpected(0))
    } else if !(1 < ts.len() && ts[1] is LitStr) {
        Err(unexpected(1))
    } else if !(2 < ts.len() && ts[2] is PathSep) {
        Err(unexpected(2))
    } else {
        match spec_parse_path(ts, 3, Seq::empty()) {
            None => Err(unexpected(3)),
            Some(pr) => {
                let filename = ts[1]->LitStr_0@;
                let srcpath = pr.0;
                let p = pr.1;
                let has_alias = p < ts.len() && is_kw(ts[p], "as"@);
                if has_alias && spec_parse_path(ts, p + 1, Seq::empty()) is None {
                    Err(unexpected(p + 1))
                } else {
                    let modpath: Option<Seq<GSeg>> = if has_alias {
                        Some((spec_parse_path(ts, p + 1, Seq::empty())->0).0)
                    } else {
                        None
                    };
                    let p2 = if has_alias {
                        (spec_parse_path(ts, p + 1, Seq::empty())->0).1
                    } else {
                        p
                    };
                    if !(p2 < ts.len() && is_kw(ts[p2], "for"@)) {
                        Err(unexpected(p2))
                    } else {
                        let e3 = crate::parse::spec_scan_region(ts, p2 + 1, 0, in_stops());
                        if e3 == p2 + 1 {
                            Err(unexpected(p2 + 1))
                        } else if !(e3 < ts.len() && is_kw(ts[e3], "in"@)) {
                            Err(unexpected(e3))
                        } else if !(e3 + 1 < ts.len() && ts[e3 + 1] is Ident) {
                            Err(unexpected(e3 + 1))
                        } else {
                            let target = toks_text(ts.subrange(p2 + 1, e3));
                            let adapter = ts[e3 + 1]->Ident_0@;
                            let p4 = e3 + 2;
                            if p4 == ts.len() {
                                Ok(
                                    GMakeClientArgs {
                                        adapter,
                                        filename,
                                        srcpath,
                                        modpath,
                                        target,
                                        extargs: None,
                                    },
                                )
                            } else if ts[p4] is Group && ts[p4]->Group_0 is Paren {
                                if p4 + 1 == ts.len() {
                                    Ok(
                                        GMakeClientArgs {
                                            adapter,
                                            filename,
                                            srcpath,
                                            modpath,
                                            target,
                                            extargs: Some(toks_text(ts[p4]->Group_1@)),
                                        },
                                    )
                                } else {
                                    Err(unexpected(p4 + 1))
                                }
                            } else {
                                Err(GErr { msg: "expected parentheses"@, pos: p4 })
                            }
                        }
                    }
                }
            },
        }
    }
}

/// The parsed arguments of a file-backed injector invocation.
#[derive(Debug)]
pub struct ClientArgs {
    pub adapter: String,
    pub filename: String,
    pub srcpath: Vec<PathSeg>,
    pub modpath: Option<Vec<PathSeg>>,
    pub target: String,
    pub extargs: Option<String>,
}

impl ClientArgs {
    /// The view of the parsed arguments.
    pub open spec fn view_spec(self) -> GMakeClientArgs {
        GMakeClientArgs {
            adapter: self.adapter@,
            filename: self.filename@,
            srcpath: segs_view(self.srcpath@),
            modpath: match self.modpath {
                Some(m) => Some(segs_view(m@)),
                None => None,
            },
            target: self.target@,
            extargs: opt_view(self.extargs),
        }
    }

    /// Parse a file-backed injector invocation.
    pub fn parse(ts: &Vec<Tok>) -> (r: Result<ClientArgs, SyntaxError>)
        ensures
            match spec_parse_make_client_args(ts@) {
                Ok(ga) => r is Ok && (r->Ok_0).view_spec() == ga,
                Err(e) => r is Err && r->Err_0.message@ == e.msg && r->Err_0.position == e.pos,
            },
    {
        let len: usize = ts.len();
        if !(0 < len && crate::parse::tok_is_kw(&ts[0], "impl")) {
            return Err(SyntaxError { message: "unexpected token".to_owned(), position: 0 });
        }
        if !(1 < len && matches!(&ts[1], Tok::LitStr(_))) {
            return Err(SyntaxError { message: "unexpected token".to_owned(), position: 1 });
        }
        if !crate::parse::pathsep_at(ts, 2) {
            return Err(SyntaxError { message: "unexpected token".to_owned(), position: 2 });
        }
        let filename: String = match &ts[1] {
            Tok::LitStr(s) => s.clone(),
            _ => String::new(),
        };
        let (srcpath, p) = match crate::parse::parse_path(ts, 3) {
            Some(v) => v,
            None => {
                return Err(
                    SyntaxError { message: "unexpected token".to_owned(), position: 3 },
                );
            },
        };
        let modpath: Option<Vec<PathSeg>>;
        let p2: usize;
        if p < len && crate::parse::tok_is_kw(&ts[p], "as") {
            match crate::parse::parse_path(ts, p + 1) {
                Some((m, e)) => {
                    modpath = Some(m);
                    p2 = e;
                },
                None => {
                    return Err(
                        SyntaxError { message: "unexpected token".to_owned(), position: p + 1 },
                    );
                },
            }
        } else {
            modpath = None;
            p2 = p;
        }
        if !(p2 < len && crate::parse::tok_is_kw(&ts[p2], "for")) {
            return Err(SyntaxError { message: "unexpected token".to_owned(), position: p2 });
        }
        let stops = crate::parse::in_stops_x();
        let e3 = crate::parse::scan_region(ts, p2 + 1, &stops);
        if e3 == p2 + 1 {
            return Err(
                SyntaxError { message: "unexpected token".to_owned(), position: p2 + 1 },
            );
        }
        if !(e3 < len && crate::parse::tok_is_kw(&ts[e3], "in")) {
            return Err(SyntaxError { message: "unexpected token".to_owned(), position: e3 });
        }
        if !(e3 + 1 < len && matches!(&ts[e3 + 1], Tok::Ident(_))) {
            return Err(
                SyntaxError { message: "unexpected token".to_owned(), position: e3 + 1 },
            );
        }
        let target = crate::tokens::render_slice(ts, p2 + 1, e3);
        let adapter: String = match &ts[e3 + 1] {
            Tok::Ident(s) => s.clone(),
            _ => String::new(),
        };
        let p4: usize = e3 + 2;
        if p4 == len {
            Ok(ClientArgs { adapter, filename, srcpath, modpath, target, extargs: None })
        } else if matches!(&ts[p4], Tok::Group(Delim::Paren, _)) {
            if p4 + 1 == len {
                let inner: String = match &ts[p4] {
                    Tok::Group(Delim::Paren, g) => crate::tokens::render_toks(g),
                    _ => String::new(),
                };
                Ok(
                    ClientArgs {
                        adapter,
                        filename,
                        srcpath,
                        modpath,
                        target,
                        extargs: Some(inner),
                    },
                )
            } else {
                Err(SyntaxError { message: "unexpected token".to_owned(), position: p4 + 1 })
            }
        } else {
            Err(SyntaxError { message: "expected parentheses".to_owned(), position: p4 })
        }
    }
}

/// What a file-backed injector invocation produces: the implementation
/// block binding the located interface to the target under its logical
/// path, or the exact failure.
pub open spec fn spec_make_client(ts: Seq<Tok>, file: Option<ScopeTree>) -> Result<
    Seq<char>,
    GFail,
> {
    match spec_parse_make_client_args(ts) {
        Err(e) => Err(GFail::Syntax(e)),
        Ok(a) => match file {
            None => Err(GFail::Resolution(ResolutionError::DefinitionSourceUnreadable)),
            Some(tree) => match spec_resolve(tree, a.srcpath.map_values(|s: GSeg| s.ident)) {
                Err(e) => Err(GFail::Resolution(e)),
                Ok(d) => {
                    let items = tree.defs@[d].items@.map_values(
                        |it: InterfaceItem| item_view(it),
                    );
                    if exists|i: int| 0 <= i < items.len() && (#[trigger] items[i])
                        is Unsupported {
                        Err(GFail::Structure(StructuralError::UnsupportedItemKind))
                    } else {
                        Ok(
                            gimpl_text(
                                None,
                                gpath_text(
                                    match a.modpath {
                                        Some(m) => m,
                                        None => a.srcpath,
                                    },
                                ),
                                a.target,
                                None,
                                ginvocations_from(a.adapter, a.extargs, items, 0),
                            ),
                        )
                    }
                },
            },
        },
    }
}

/// Expand one file-backed injector invocation: parse its arguments,
/// locate the interface inside the parsed definition source, and assemble
/// the implementation block that invokes the adapter once per item.
pub fn make_client_impl(ts: &Vec<Tok>, file: Option<ScopeTree>) -> (r: Result<String, GenError>)
    requires
        file is Some ==> file->0.wf(),
    ensures
        match spec_make_client(ts@, file) {
            Ok(text) => r is Ok && r->Ok_0@ == text,
            Err(f) => r is Err && gen_error_view(r->Err_0) == f,
        },
{
    let args = match ClientArgs::parse(ts) {
        Ok(a) => a,
        Err(e) => {
            return Err(GenError::Syntax(e));
        },
    };
    let ClientArgs { adapter, filename: _, srcpath, modpath, target, extargs } = args;
    let tree = match file {
        Some(t) => t,
        None => {
            return Err(GenError::Resolution(ResolutionError::DefinitionSourceUnreadable));
        },
    };
    proof {
        assert(path_view(srcpath@) =~= segs_view(srcpath@).map_values(|s: GSeg| s.ident));
    }
    let items = match find_trait_from_file(tree, &srcpath) {
        Ok(v) => v,
        Err(e) => {
            return Err(GenError::Resolution(e));
        },
    };
    let ghost gitems: Seq<GItem> = items@.map_values(|it: InterfaceItem| item_view(it));
    if crate::inject_implement::has_unsupported(&items) {
        proof {
            let i = choose|i: int| 0 <= i < items@.len() && (#[trigger] items@[i]) is Unsupported;
            assert(gitems[i] == item_view(items@[i]));
        }
        return Err(GenError::Structure(StructuralError::UnsupportedItemKind));
    }
    proof {
        if exists|i: int| 0 <= i < gitems.len() && (#[trigger] gitems[i]) is Unsupported {
            let i = choose|i: int| 0 <= i < gitems.len() && (#[trigger] gitems[i]) is Unsupported;
            assert(gitems[i] == item_view(items@[i]));
            assert(items@[i] is Unsupported);
        }
    }
    let name_path: Vec<PathSeg> = match modpath {
        Some(m) => m,
        None => srcpath,
    };
    let name_text = crate::render::render_path(&name_path);
    proof {
        lemma_path_text_view(name_path@);
    }
    let body = crate::render::render_invocations(&adapter, &extargs, &items);
    let none_g: Option<String> = None;
    let none_p: Option<String> = None;
    let out = crate::render::render_impl_block(&none_g, &name_text, &target, &none_p, &body);
    Ok(out)
}

} // verus!
