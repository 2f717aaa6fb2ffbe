//! The recursive schema parser.
//!
//! A schema is a sequence of `;`-separated field declarations.  The parser
//! keeps only identifier, integer, type-name and semicolon tokens, splits
//! them on semicolons, and reads each two- or three-token group as one
//! field: a primitive field advances the byte cursor by its own size, and
//! a field whose type names a registered struct is flattened recursively
//! through that struct's own schema text, its flattened field names
//! prefixed with the field identifier, the cursor advancing by the
//! registered size.  A group that fits no form yields no field and leaves
//! the cursor alone; unlexable schema text yields an empty field list.
//!
//! Two conditions fail a parse outright, again yielding an empty list: a
//! byte offset that would not fit the machine, and struct nesting deeper
//! than `PARSE_FUEL`, which a registry whose schemas refer back to
//! themselves would otherwise turn into endless recursion.

use super::desc_seq_get;
use super::lexer::lex_schema;
use super::lexer::spec_lex;
use super::lexer::toks_view;
use super::lexer::SpecTok;
use super::lexer::Token;
use super::DescView;
use super::FrcStructDescDB;
use super::StructureFieldTypes;
use crate::text::append_decimal;
use crate::text::spec_decimal;
use vstd::prelude::*;
use vstd::string::*;

verus! {

/// The deepest struct nesting the parser follows before giving up.
pub const PARSE_FUEL: usize = 64;

/// One flattened field at the specification level: qualified dotted name,
/// absolute byte offset, wire type.
pub type FieldV = (Seq<char>, int, StructureFieldTypes);

/// The specification content of an executable field triple.
pub open spec fn fields_view(v: Seq<(String, usize, StructureFieldTypes)>) -> Seq<FieldV> {
    v.map(|i: int, f: (String, usize, StructureFieldTypes)| (f.0@, f.1 as int, f.2))
}

/// The tokens the field grammar reads; all others are dropped before
/// grouping.
pub open spec fn keep_tok(t: SpecTok) -> bool {
    match t {
        SpecTok::Ident(_) => true,
        SpecTok::Integer(_) => true,
        SpecTok::TypeName(_) => true,
        SpecTok::Semicolon => true,
        _ => false,
    }
}

/// The kept tokens of a token sequence, in order.
pub open spec fn filter_toks(ts: Seq<SpecTok>) -> Seq<SpecTok>
    decreases ts.len(),
{
    if ts.len() == 0 {
        Seq::empty()
    } else {
        filter_toks(ts.drop_last()) + (if keep_tok(ts.last()) {
            seq![ts.last()]
        } else {
            Seq::empty()
        })
    }
}

/// Splitting on semicolons, mid-fold: the finished groups and the group
/// still being read.
pub open spec fn split_fold(ts: Seq<SpecTok>) -> (Seq<Seq<SpecTok>>, Seq<SpecTok>)
    decreases ts.len(),
{
    if ts.len() == 0 {
        (Seq::empty(), Seq::empty())
    } else {
        let prev = split_fold(ts.drop_last());
        if ts.last() is Semicolon {
            (prev.0.push(prev.1), Seq::empty())
        } else {
            (prev.0, prev.1.push(ts.last()))
        }
    }
}

/// The groups between semicolons, the text after the last semicolon
/// included.
pub open spec fn split_groups(ts: Seq<SpecTok>) -> Seq<Seq<SpecTok>> {
    let f = split_fold(ts);
    f.0.push(f.1)
}

/// Parsing a whole schema text: lex, filter, split, then read the groups
/// in order from the byte cursor `offset`.  Unlexable text gives an empty
/// field list with the cursor unmoved; `None` is an aborted parse (an
/// offset past the machine's range, or nesting past the fuel).
pub open spec fn spec_parse_schema(
    db: Seq<DescView>,
    schema: Seq<char>,
    prefix: Seq<char>,
    offset: int,
    fuel: nat,
) -> Option<(Seq<FieldV>, int)>
    decreases fuel, 2nat, 0nat,
{
    match spec_lex(schema) {
        None => Some((Seq::empty(), offset)),
        Some(toks) => spec_parse_groups(db, split_groups(filter_toks(toks)), prefix, offset, fuel),
    }
}

/// Parsing the remaining token groups in order, threading the cursor.
pub open spec fn spec_parse_groups(
    db: Seq<DescView>,
    groups: Seq<Seq<SpecTok>>,
    prefix: Seq<char>,
    offset: int,
    fuel: nat,
) -> Option<(Seq<FieldV>, int)>
    decreases fuel, 1nat, groups.len(),
{
    if groups.len() == 0 {
        Some((Seq::empty(), offset))
    } else {
        match spec_parse_group(db, groups[0], prefix, offset, fuel) {
            None => None,
            Some(head) => match spec_parse_groups(
                db,
                groups.drop_first(),
                prefix,
                head.1,
                fuel,
            ) {
                None => None,
                Some(rest) => Some((head.0 + rest.0, rest.1)),
            },
        }
    }
}

/// Parsing one token group.  `<registered> <ident>` flattens the
/// registered struct under the prefix `<ident>.`; `<registered> <ident>
/// <n>` flattens it `n` times under `<ident>[k].`; `<primitive> <ident>
/// [<n>]` emits one field; everything else yields no field at all.
pub open spec fn spec_parse_group(
    db: Seq<DescView>,
    g: Seq<SpecTok>,
    prefix: Seq<char>,
    offset: int,
    fuel: nat,
) -> Option<(Seq<FieldV>, int)>
    decreases fuel, 1nat, 0nat,
{
    if g.len() < 2 || g.len() > 3 {
        Some((Seq::empty(), offset))
    } else if !(g[1] is Ident) {
        Some((Seq::empty(), offset))
    } else {
        let fname = g[1]->Ident_0;
        match g[0] {
            SpecTok::Ident(sub) => match desc_seq_get(db, sub) {
                None => Some((Seq::empty(), offset)),
                Some(d) => {
                    if g.len() == 3 && g[2] is Integer {
                        spec_parse_elems(
                            db,
                            d,
                            fname,
                            prefix,
                            offset,
                            0,
                            g[2]->Integer_0 as int,
                            fuel,
                        )
                    } else {
                        if fuel == 0 {
                            None
                        } else {
                            match spec_parse_schema(
                                db,
                                d.schema,
                                prefix + fname + "."@,
                                offset,
                                (fuel - 1) as nat,
                            ) {
                                None => None,
                                Some(inner) => {
                                    if offset + d.size > usize::MAX {
                                        None
                                    } else {
                                        Some((inner.0, offset + d.size))
                                    }
                                },
                            }
                        }
                    }
                },
            },
            SpecTok::TypeName(tn) => {
                let count: usize = if g.len() == 3 && g[2] is Integer {
                    g[2]->Integer_0 as usize
                } else {
                    1
                };
                match StructureFieldTypes::spec_from_type(tn, count) {
                    None => Some((Seq::empty(), offset)),
                    Some(ft) => {
                        if offset + ft.spec_size() > usize::MAX {
                            None
                        } else {
                            Some(
                                (
                                    seq![((prefix + fname), offset, ft)],
                                    offset + ft.spec_size(),
                                ),
                            )
                        }
                    },
                }
            },
            _ => Some((Seq::empty(), offset)),
        }
    }
}

/// Flattening element `k` of `count` copies of a registered struct, each
/// under the prefix `<ident>[k].`, the cursor advancing by the registered
/// size per element.
pub open spec fn spec_parse_elems(
    db: Seq<DescView>,
    d: DescView,
    fname: Seq<char>,
    prefix: Seq<char>,
    offset: int,
    k: int,
    count: int,
    fuel: nat,
) -> Option<(Seq<FieldV>, int)>
    decreases fuel, 0nat, (count - k) as nat,
{
    if k >= count {
        Some((Seq::empty(), offset))
    } else if fuel == 0 {
        None
    } else {
        let np = prefix + fname + "["@ + spec_decimal(k as nat) + "]."@;
        match spec_parse_schema(db, d.schema, np, offset, (fuel - 1) as nat) {
            None => None,
            Some(inner) => {
                if offset + d.size > usize::MAX {
                    None
                } else {
                    match spec_parse_elems(
                        db,
                        d,
                        fname,
                        prefix,
                        offset + d.size,
                        k + 1,
                        count,
                        fuel,
                    ) {
                        None => None,
                        Some(rest) => Some((inner.0 + rest.0, rest.1)),
                    }
                }
            },
        }
    }
}

/// The flattened fields of a schema text against a registry: each is a
/// qualified dotted name, an absolute byte offset, and a wire type, in
/// declaration order.
pub open spec fn spec_parse_toplevel(db: Seq<DescView>, schema: Seq<char>) -> Seq<FieldV> {
    match spec_parse_schema(db, schema, Seq::empty(), 0, PARSE_FUEL as nat) {
        None => Seq::empty(),
        Some(r) => r.0,
    }
}

/// Flattens a schema text against the registry into `(name, offset,
/// type)` triples, offsets counted from zero.
pub fn parse_schema_toplevel(db: &FrcStructDescDB, schema: &str) -> (r: Vec<
    (String, usize, StructureFieldTypes),
>)
    ensures
        fields_view(r@) == spec_parse_toplevel(db@, schema@),
{
    let empty_prefix = String::new();
    let r = parse_schema(db, schema, empty_prefix.as_str(), 0);
    proof {
        assert(empty_prefix@ =~= Seq::<char>::empty());
    }
    r
}

/// Flattens a schema text with a name prefix, offsets counted from
/// `offset`.  An unlexable schema, an offset past the machine's range and
/// nesting deeper than `PARSE_FUEL` all yield an empty list.
pub fn parse_schema(db: &FrcStructDescDB, schema: &str, prefix: &str, offset: usize) -> (r: Vec<
    (String, usize, StructureFieldTypes),
>)
    ensures
        fields_view(r@) == match spec_parse_schema(
            db@,
            schema@,
            prefix@,
            offset as int,
            PARSE_FUEL as nat,
        ) {
            None => Seq::<FieldV>::empty(),
            Some(rr) => rr.0,
        },
{
    let mut out: Vec<(String, usize, StructureFieldTypes)> = Vec::new();
    let r = parse_rec(db, schema, prefix, offset, PARSE_FUEL, &mut out);
    proof {
        assert(fields_view(Seq::<(String, usize, StructureFieldTypes)>::empty())
            =~= Seq::<FieldV>::empty());
    }
    match r {
        Some(_) => out,
        None => Vec::new(),
    }
}

/// One recursion level of the parser: appends the flattened fields to
/// `out` and hands back the cursor after the schema, or `None` on an
/// aborted parse.
fn parse_rec(
    db: &FrcStructDescDB,
    schema: &str,
    prefix: &str,
    offset: usize,
    fuel: usize,
    out: &mut Vec<(String, usize, StructureFieldTypes)>,
) -> (r: Option<usize>)
    ensures
        match spec_parse_schema(db@, schema@, prefix@, offset as int, fuel as nat) {
            None => r is None,
            Some(rr) => {
                &&& r == Some(rr.1 as usize)
                &&& 0 <= rr.1 <= usize::MAX
                &&& fields_view(final(out)@) == fields_view(old(out)@) + rr.0
            },
        },
    decreases fuel, 2nat, 0nat,
{
    let toks = match lex_schema(schema) {
        None => {
            proof {
                assert(fields_view(out@) =~= fields_view(old(out)@) + Seq::<FieldV>::empty());
            }
            return Some(offset);
        },
        Some(toks) => toks,
    };
    let ghost tv = toks_view(toks@);

    // keep only the tokens the field grammar reads
    let mut kept: Vec<Token> = Vec::new();
    let mut i: usize = 0;
    proof {
        assert(tv.take(0) =~= Seq::<SpecTok>::empty());
        assert(toks_view(kept@) =~= filter_toks(tv.take(0)));
    }
    while i < toks.len()
        invariant
            0 <= i <= toks@.len(),
            tv == toks_view(toks@),
            toks_view(kept@) == filter_toks(tv.take(i as int)),
        decreases toks@.len() - i,
    {
        let keep = match &toks[i] {
            Token::Ident(_) => true,
            Token::Integer(_) => true,
            Token::TypeName(_) => true,
            Token::Semicolon => true,
            _ => false,
        };
        proof {
            assert(tv.take(i + 1).drop_last() =~= tv.take(i as int));
            assert(tv.take(i + 1).last() == tv[i as int]);
            assert(tv[i as int] == toks@[i as int]@);
            assert(keep == keep_tok(tv[i as int]));
        }
        if keep {
            let ghost kept_prev = toks_view(kept@);
            let t = toks[i].clone_tok();
            let ghost tview = t@;
            kept.push(t);
            proof {
                assert(toks_view(kept@) =~= kept_prev.push(tview));
                assert(toks_view(kept@) =~= filter_toks(tv.take(i + 1)));
            }
        } else {
            proof {
                assert(toks_view(kept@) =~= filter_toks(tv.take(i + 1)));
            }
        }
        i += 1;
    }
    proof {
        assert(tv.take(tv.len() as int) =~= tv);
    }
    let ghost kv = toks_view(kept@);

    // split the kept tokens on semicolons
    let mut done: Vec<Vec<Token>> = Vec::new();
    let mut cur: Vec<Token> = Vec::new();
    let mut j: usize = 0;
    proof {
        assert(kv.take(0) =~= Seq::<SpecTok>::empty());
        assert(groups_view(done@) =~= split_fold(kv.take(0)).0);
        assert(toks_view(cur@) =~= split_fold(kv.take(0)).1);
    }
    while j < kept.len()
        invariant
            0 <= j <= kept@.len(),
            kv == toks_view(kept@),
            groups_view(done@) == split_fold(kv.take(j as int)).0,
            toks_view(cur@) == split_fold(kv.take(j as int)).1,
        decreases kept@.len() - j,
    {
        proof {
            assert(kv.take(j + 1).drop_last() =~= kv.take(j as int));
            assert(kv.take(j + 1).last() == kv[j as int]);
            assert(kv[j as int] == kept@[j as int]@);
        }
        let is_semi = match &kept[j] {
            Token::Semicolon => true,
            _ => false,
        };
        if is_semi {
            let ghost done_prev = groups_view(done@);
            let ghost cur_prev = toks_view(cur@);
            done.push(cur);
            cur = Vec::new();
            proof {
                assert(groups_view(done@) =~= done_prev.push(cur_prev));
                assert(toks_view(cur@) =~= Seq::<SpecTok>::empty());
            }
        } else {
            let ghost cur_prev = toks_view(cur@);
            let t = kept[j].clone_tok();
            let ghost tview = t@;
            cur.push(t);
            proof {
                assert(toks_view(cur@) =~= cur_prev.push(tview));
            }
        }
        j += 1;
    }
    proof {
        assert(kv.take(kv.len() as int) =~= kv);
    }
    let ghost done_prev = groups_view(done@);
    let ghost cur_prev = toks_view(cur@);
    done.push(cur);
    proof {
        assert(groups_view(done@) =~= done_prev.push(cur_prev));
        assert(groups_view(done@) =~= split_groups(filter_toks(tv)));
    }
    let ghost gv = groups_view(done@);
    proof {
        assert(spec_parse_schema(db@, schema@, prefix@, offset as int, fuel as nat)
            == spec_parse_groups(db@, gv, prefix@, offset as int, fuel as nat));
    }

    // read the groups in order, threading the byte cursor
    let mut off: usize = offset;
    let mut k: usize = 0;
    let ghost entry = fields_view(out@);
    let ghost mut acc: Seq<FieldV> = Seq::empty();
    proof {
        assert(gv.skip(0) =~= gv);
        assert(fields_view(out@) =~= entry + acc);
        let e0 = spec_parse_groups(db@, gv, prefix@, offset as int, fuel as nat);
        if e0 is Some {
            assert((acc + e0->Some_0.0, e0->Some_0.1) =~= e0->Some_0);
        }
    }
    while k < done.len()
        invariant
            0 <= k <= done@.len(),
            gv == groups_view(done@),
            spec_parse_schema(db@, schema@, prefix@, offset as int, fuel as nat)
                == spec_parse_groups(db@, gv, prefix@, offset as int, fuel as nat),
            entry == fields_view(old(out)@),
            fields_view(out@) == entry + acc,
            match spec_parse_groups(db@, gv.skip(k as int), prefix@, off as int, fuel as nat) {
                None => spec_parse_groups(db@, gv, prefix@, offset as int, fuel as nat) is None,
                Some(rr) => spec_parse_groups(db@, gv, prefix@, offset as int, fuel as nat)
                    == Some((acc + rr.0, rr.1)),
            },
        decreases done@.len() - k,
    {
        proof {
            assert(gv.skip(k as int).drop_first() =~= gv.skip(k + 1));
            assert(gv.skip(k as int)[0] == gv[k as int]);
            assert(gv[k as int] == toks_view(done@[k as int]@));
        }
        let res = parse_group(db, &done[k], prefix, off, fuel, out);
        match res {
            None => {
                proof {
                    assert(spec_parse_groups(
                        db@,
                        gv.skip(k as int),
                        prefix@,
                        off as int,
                        fuel as nat,
                    ) is None);
                }
                return None;
            },
            Some(noff) => {
                proof {
                    let gres = spec_parse_group(db@, gv[k as int], prefix@, off as int, fuel as nat);
                    let rr = gres->Some_0;
                    let after = spec_parse_groups(db@, gv.skip(k + 1), prefix@, rr.1, fuel as nat);
                    if after is Some {
                        let rest = after->Some_0;
                        assert((acc + rr.0) + rest.0 =~= acc + (rr.0 + rest.0));
                        assert(((acc + rr.0) + rest.0, rest.1) =~= (acc + (rr.0 + rest.0), rest.1));
                    }
                    acc = acc + rr.0;
                    assert(fields_view(out@) =~= entry + acc);
                }
                off = noff;
            },
        }
        k += 1;
    }
    proof {
        assert(gv.skip(done@.len() as int) =~= Seq::<Seq<SpecTok>>::empty());
        assert(spec_parse_groups(
            db@,
            gv.skip(done@.len() as int),
            prefix@,
            off as int,
            fuel as nat,
        ) == Some((Seq::<FieldV>::empty(), off as int)));
        assert(acc + Seq::<FieldV>::empty() =~= acc);
        assert((acc + Seq::<FieldV>::empty(), off as int) =~= (acc, off as int));
    }
    Some(off)
}

/// Reads one token group, appending its flattened fields to `out` and
/// handing back the cursor after the group, or `None` on an aborted
/// parse.
fn parse_group(
    db: &FrcStructDescDB,
    g: &Vec<Token>,
    prefix: &str,
    offset: usize,
    fuel: usize,
    out: &mut Vec<(String, usize, StructureFieldTypes)>,
) -> (r: Option<usize>)
    ensures
        match spec_parse_group(db@, toks_view(g@), prefix@, offset as int, fuel as nat) {
            None => r is None,
            Some(rr) => {
                &&& r == Some(rr.1 as usize)
                &&& 0 <= rr.1 <= usize::MAX
                &&& fields_view(final(out)@) == fields_view(old(out)@) + rr.0
            },
        },
    decreases fuel, 1nat, 0nat,
{
    let ghost gvv = toks_view(g@);
    let glen = g.len();
    if glen < 2 || glen > 3 {
        proof {
            assert(fields_view(out@) =~= fields_view(old(out)@) + Seq::<FieldV>::empty());
        }
        return Some(offset);
    }
    proof {
        assert(gvv[0] == g@[0]@);
        assert(gvv[1] == g@[1]@);
        if glen == 3 {
            assert(gvv[2] == g@[2]@);
        }
    }
    let fname = match &g[1] {
        Token::Ident(w) => w,
        _ => {
            proof {
                assert(fields_view(out@) =~= fields_view(old(out)@) + Seq::<FieldV>::empty());
            }
            return Some(offset);
        },
    };
    proof {
        assert(gvv[1] == SpecTok::Ident(fname@));
    }
    match &g[0] {
        Token::Ident(sub) => {
            proof {
                assert(gvv[0] == SpecTok::Ident(sub@));
            }
            let dopt = db.get(sub.as_str());
            match dopt {
                None => {
                    proof {
                        super::lemma_desc_seq_get_some(db@, sub@);
                        assert(fields_view(out@) =~= fields_view(old(out)@)
                            + Seq::<FieldV>::empty());
                    }
                    Some(offset)
                },
                Some(desc) => {
                    let ghost dv = desc@;
                    let ghost fnv = fname@;
                    let mut count: u32 = 1;
                    let mut indexed = false;
                    if glen == 3 {
                        match &g[2] {
                            Token::Integer(n) => {
                                count = *n;
                                indexed = true;
                            },
                            _ => {},
                        }
                    }
                    proof {
                        assert(indexed == (gvv.len() == 3 && gvv[2] is Integer));
                    }
                    if indexed {
                        // an array of a registered struct: one copy per index
                        let ghost full = spec_parse_elems(
                            db@,
                            dv,
                            fnv,
                            prefix@,
                            offset as int,
                            0,
                            count as int,
                            fuel as nat,
                        );
                        proof {
                            assert(count == gvv[2]->Integer_0);
                            assert(spec_parse_group(db@, gvv, prefix@, offset as int, fuel as nat)
                                == full);
                        }
                        let mut off: usize = offset;
                        let mut k: u32 = 0;
                        let ghost entry = fields_view(out@);
                        let ghost mut acc: Seq<FieldV> = Seq::empty();
                        proof {
                            assert(fields_view(out@) =~= entry + acc);
                            if full is Some {
                                assert((acc + full->Some_0.0, full->Some_0.1) =~= full->Some_0);
                            }
                        }
                        while k < count
                            invariant
                                0 <= k <= count,
                                dv == desc@,
                                fnv == fname@,
                                spec_parse_group(
                                    db@,
                                    toks_view(g@),
                                    prefix@,
                                    offset as int,
                                    fuel as nat,
                                ) == full,
                                entry == fields_view(old(out)@),
                                fields_view(out@) == entry + acc,
                                full == spec_parse_elems(
                                    db@,
                                    dv,
                                    fnv,
                                    prefix@,
                                    offset as int,
                                    0,
                                    count as int,
                                    fuel as nat,
                                ),
                                match spec_parse_elems(
                                    db@,
                                    dv,
                                    fnv,
                                    prefix@,
                                    off as int,
                                    k as int,
                                    count as int,
                                    fuel as nat,
                                ) {
                                    None => full is None,
                                    Some(rr) => full == Some((acc + rr.0, rr.1)),
                                },
                            decreases count - k,
                        {
                            if fuel == 0 {
                                proof {
                                    assert(spec_parse_elems(
                                        db@,
                                        dv,
                                        fnv,
                                        prefix@,
                                        off as int,
                                        k as int,
                                        count as int,
                                        fuel as nat,
                                    ) is None);
                                }
                                return None;
                            }
                            let mut np = String::new();
                            np.append(prefix);
                            np.append(fname.as_str());
                            np.append("[");
                            append_decimal(&mut np, k as usize);
                            np.append("].");
                            let ghost npv = prefix@ + fnv + "["@ + spec_decimal(k as nat) + "]."@;
                            proof {
                                assert(np@ =~= npv);
                            }
                            let inner = parse_rec(
                                db,
                                desc.schema.as_str(),
                                np.as_str(),
                                off,
                                fuel - 1,
                                out,
                            );
                            match inner {
                                None => {
                                    proof {
                                        assert(spec_parse_elems(
                                            db@,
                                            dv,
                                            fnv,
                                            prefix@,
                                            off as int,
                                            k as int,
                                            count as int,
                                            fuel as nat,
                                        ) is None);
                                    }
                                    return None;
                                },
                                Some(_) => {},
                            }
                            let noff = match off.checked_add(desc.size) {
                                None => {
                                    proof {
                                        assert(off + dv.size > usize::MAX);
                                        assert(spec_parse_elems(
                                            db@,
                                            dv,
                                            fnv,
                                            prefix@,
                                            off as int,
                                            k as int,
                                            count as int,
                                            fuel as nat,
                                        ) is None);
                                    }
                                    return None;
                                },
                                Some(noff) => noff,
                            };
                            proof {
                                let ires = spec_parse_schema(
                                    db@,
                                    dv.schema,
                                    npv,
                                    off as int,
                                    (fuel - 1) as nat,
                                );
                                let rr = ires->Some_0;
                                let after = spec_parse_elems(
                                    db@,
                                    dv,
                                    fnv,
                                    prefix@,
                                    noff as int,
                                    k + 1,
                                    count as int,
                                    fuel as nat,
                                );
                                if after is Some {
                                    let rest = after->Some_0;
                                    assert((acc + rr.0) + rest.0 =~= acc + (rr.0 + rest.0));
                                    assert(((acc + rr.0) + rest.0, rest.1) =~= (
                                        acc + (rr.0 + rest.0),
                                        rest.1,
                                    ));
                                }
                                acc = acc + rr.0;
                                assert(fields_view(out@) =~= entry + acc);
                            }
                            off = noff;
                            k += 1;
                        }
                        proof {
                            assert(spec_parse_elems(
                                db@,
                                dv,
                                fnv,
                                prefix@,
                                off as int,
                                count as int,
                                count as int,
                                fuel as nat,
                            ) == Some((Seq::<FieldV>::empty(), off as int)));
                            assert((acc + Seq::<FieldV>::empty(), off as int) =~= (
                                acc,
                                off as int,
                            ));
                        }
                        Some(off)
                    } else {
                        // one embedded struct, flattened under "<ident>."
                        if fuel == 0 {
                            return None;
                        }
                        let mut np = String::new();
                        np.append(prefix);
                        np.append(fname.as_str());
                        np.append(".");
                        proof {
                            assert(np@ =~= prefix@ + fnv + "."@);
                        }
                        let inner = parse_rec(
                            db,
                            desc.schema.as_str(),
                            np.as_str(),
                            offset,
                            fuel - 1,
                            out,
                        );
                        match inner {
                            None => None,
                            Some(_) => match offset.checked_add(desc.size) {
                                None => None,
                                Some(noff) => Some(noff),
                            },
                        }
                    }
                },
            }
        },
        Token::TypeName(tn) => {
            proof {
                assert(gvv[0] == SpecTok::TypeName(tn@));
            }
            let mut count: usize = 1;
            if glen == 3 {
                match &g[2] {
                    Token::Integer(n) => {
                        count = *n as usize;
                    },
                    _ => {},
                }
            }
            proof {
                assert(count == (if gvv.len() == 3 && gvv[2] is Integer {
                    gvv[2]->Integer_0 as usize
                } else {
                    1usize
                }));
            }
            match StructureFieldTypes::from_type(tn.as_str(), count) {
                None => {
                    proof {
                        assert(fields_view(out@) =~= fields_view(old(out)@)
                            + Seq::<FieldV>::empty());
                    }
                    Some(offset)
                },
                Some(ft) => {
                    let sz = match ft.base_size().checked_mul(ft.count()) {
                        None => {
                            return None;
                        },
                        Some(sz) => sz,
                    };
                    proof {
                        assert(sz == ft.spec_size());
                    }
                    let noff = match offset.checked_add(sz) {
                        None => {
                            return None;
                        },
                        Some(noff) => noff,
                    };
                    let mut nm = String::new();
                    nm.append(prefix);
                    nm.append(fname.as_str());
                    let ghost entry = fields_view(out@);
                    let ghost nmv = nm@;
                    out.push((nm, offset, ft));
                    proof {
                        assert(nmv =~= prefix@ + fname@);
                        assert(fields_view(out@) =~= entry.push((nmv, offset as int, ft)));
                        assert(entry.push((nmv, offset as int, ft)) =~= entry + seq![
                            ((prefix@ + fname@), offset as int, ft),
                        ]);
                    }
                    Some(noff)
                },
            }
        },
        _ => {
            proof {
                assert(fields_view(out@) =~= fields_view(old(out)@) + Seq::<FieldV>::empty());
            }
            Some(offset)
        },
    }
}

/// The specification content of a group vector.
pub open spec fn groups_view(g: Seq<Vec<Token>>) -> Seq<Seq<SpecTok>> {
    g.map(|i: int, v: Vec<Token>| toks_view(v@))
}

} // verus!
