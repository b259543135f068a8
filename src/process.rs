//! The walk over the declarations of a translation unit: each declaration
//! of a requested header is rendered by its kind and added to the output;
//! failures are collected per item and do not stop the walk.

use vstd::prelude::*;
use crate::decls::{
    CType,
    EnumConstant,
    Field,
    abi_name,
    abi_text,
    function_decl,
    function_text,
    variable_decl,
    variable_text,
    enum_decl,
    enum_text,
    enum_use_decl,
    enum_use_text,
    struct_decl,
    struct_text,
    typedef_decl,
    typedef_text,
    union_decl,
    union_field_decl,
    union_field_text,
    union_text,
};
use crate::features::Features;
use crate::kinds::CallingConv;
use crate::output::{Entry, OutputItems, added};
use crate::text::same_text;
use crate::trans_macros::{
    MacroDefinition,
    MacroError,
    MacroOutcome,
    MacroToken,
    inner_spellings,
    is_functionish,
    macro_result,
    outcome_of,
    process_macro_defn,
};

verus! {

/// What a declaration is, with what its rendering reads.
pub enum DeclBody {
    Macro { tokens: Vec<MacroToken> },
    Typedef { underlying: CType },
    Struct { fields: Vec<Field>, packed: bool },
    Union { payload: CType, fields: Vec<Field> },
    Enum { constants: Vec<EnumConstant> },
    Function { cc: CallingConv, params: Vec<Field>, variadic: bool, result: CType },
    Variable { ty: CType, is_const: bool },
}

/// A declaration found at the top of a translation unit: its name, the stem
/// of the header it is in, where it is, and what it is.
pub struct Decl {
    pub name: String,
    pub header: String,
    pub annotation: String,
    pub body: DeclBody,
}

/// A declaration that gave no output, or only part of it, and why.
pub struct ItemFailure {
    pub name: String,
    pub error: MacroError,
}

/// The output items of a non-macro declaration, as (key, text): a record's
/// union accessors are keyed `NAME.field`, an enum's import `NAME::*`.
pub open spec fn items_of(name: Seq<char>, body: DeclBody) -> Seq<(Seq<char>, Seq<char>)> {
    match body {
        DeclBody::Macro { .. } => Seq::empty(),
        DeclBody::Typedef { underlying } => seq![(name, typedef_text(name, underlying@))],
        DeclBody::Struct { fields, packed } => seq![(name, struct_text(name, fields@, packed))],
        DeclBody::Union { payload, fields } => seq![(name, union_text(name, payload@))] + fields@.map(
            |i: int, f: Field| (name + "."@ + f.name@, union_field_text(name, f)),
        ),
        DeclBody::Enum { constants } => seq![
            (name, enum_text(name, constants@)),
            (name + "::*"@, enum_use_text(name, constants@)),
        ],
        DeclBody::Function { cc, params, variadic, result } => match abi_text(cc) {
            Some(abi) => seq![(name, function_text(name, abi, params@, variadic, result@))],
            None => Seq::empty(),
        },
        DeclBody::Variable { ty, is_const } => seq![(name, variable_text(name, ty@, is_const))],
    }
}

/// Adds the items in order; stops at the first that conflicts.
pub open spec fn add_items(
    es: Seq<Entry>,
    items: Seq<(Seq<char>, Seq<char>)>,
    header: Seq<char>,
    features: Seq<Seq<char>>,
    annot: Seq<char>,
) -> (Seq<Entry>, bool)
    decreases items.len(),
{
    if items.len() == 0 {
        (es, true)
    } else {
        let (m, ok) = add_items(es, items.drop_last(), header, features, annot);
        if !ok {
            (m, false)
        } else {
            match added(m, items.last().0, header, features, items.last().1, annot) {
                Some(m2) => (m2, true),
                None => (m, false),
            }
        }
    }
}

/// The output after one declaration, and how it ended; `None` for a
/// declaration outside the requested headers.
pub open spec fn decl_result(
    es: Seq<Entry>,
    d: Decl,
    wanted: Seq<Seq<char>>,
    features: Seq<Seq<char>>,
    emit_stubs: bool,
) -> (Seq<Entry>, Option<MacroOutcome>) {
    if !wanted.contains(d.header@) {
        (es, None)
    } else {
        match d.body {
            DeclBody::Macro { tokens } => {
                let (m, o) = macro_result(
                    es,
                    d.name@,
                    d.header@,
                    d.annotation@,
                    tokens@,
                    features,
                    emit_stubs,
                );
                (m, Some(o))
            },
            DeclBody::Function { cc, .. } if abi_text(cc).is_none() => (es, Some(MacroOutcome::Unsupported)),
            _ => {
                let (m, ok) = add_items(es, items_of(d.name@, d.body), d.header@, features, d.annotation@);
                (m, Some(if ok { MacroOutcome::Done } else { MacroOutcome::Conflict }))
            },
        }
    }
}

/// The output after all declarations, in order, and the failures: the name
/// of each declaration that did not end well, and how it ended.
pub open spec fn walk_result(
    es: Seq<Entry>,
    ds: Seq<Decl>,
    wanted: Seq<Seq<char>>,
    features: Seq<Seq<char>>,
    emit_stubs: bool,
) -> (Seq<Entry>, Seq<(Seq<char>, MacroOutcome)>)
    decreases ds.len(),
{
    if ds.len() == 0 {
        (es, Seq::empty())
    } else {
        let (m, fails) = walk_result(es, ds.drop_last(), wanted, features, emit_stubs);
        let (m2, o) = decl_result(m, ds.last(), wanted, features, emit_stubs);
        match o {
            Some(oc) => if oc == MacroOutcome::Done {
                (m2, fails)
            } else {
                (m2, fails.push((ds.last().name@, oc)))
            },
            None => (m2, fails),
        }
    }
}

pub open spec fn failures_view(v: Seq<ItemFailure>) -> Seq<(Seq<char>, MacroOutcome)> {
    v.map_values(|f: ItemFailure| (f.name@, outcome_of(Err(f.error))))
}

fn add_item_list(
    output: &mut OutputItems,
    items: &Vec<(String, String)>,
    header: &String,
    feat: &Features,
    annot: &String,
) -> (r: Result<(), MacroError>)
    requires
        old(output).wf(),
        feat.wf(),
    ensures
        final(output).wf(),
        add_items(
            old(output)@,
            items@.map_values(|p: (String, String)| (p.0@, p.1@)),
            header@,
            feat@,
            annot@,
        ) == (final(output)@, r is Ok),
        r is Err ==> r matches Err(MacroError::Conflict(_)),
{
    let ghost spec_items = items@.map_values(|p: (String, String)| (p.0@, p.1@));
    let mut i: usize = 0;
    while i < items.len()
        invariant
            output.wf(),
            feat.wf(),
            spec_items == items@.map_values(|p: (String, String)| (p.0@, p.1@)),
            i <= items@.len(),
            add_items(old(output)@, spec_items.subrange(0, i as int), header@, feat@, annot@) == (
                output@,
                true,
            ),
        decreases items@.len() - i,
    {
        let ghost before = output@;
        let ghost next = spec_items.subrange(0, i + 1);
        assert(next.drop_last() =~= spec_items.subrange(0, i as int));
        assert(next.last() == (items@[i as int].0@, items@[i as int].1@));
        match output.add_header_item(
            items[i].0.clone(),
            header.clone(),
            feat.duplicate(),
            items[i].1.clone(),
            annot.clone(),
        ) {
            Ok(()) => {},
            Err(c) => {
                proof {
                    lemma_add_items_stopped(old(output)@, spec_items, i as int + 1, header@, feat@, annot@);
                }
                return Err(MacroError::Conflict(c));
            },
        }
        i = i + 1;
    }
    assert(spec_items.subrange(0, i as int) =~= spec_items);
    Ok(())
}

/// Once adding stopped at a conflict, later items leave the output alone.
proof fn lemma_add_items_stopped(
    es: Seq<Entry>,
    items: Seq<(Seq<char>, Seq<char>)>,
    n: int,
    header: Seq<char>,
    features: Seq<Seq<char>>,
    annot: Seq<char>,
)
    requires
        0 <= n <= items.len(),
        !add_items(es, items.subrange(0, n), header, features, annot).1,
    ensures
        add_items(es, items, header, features, annot) == add_items(
            es,
            items.subrange(0, n),
            header,
            features,
            annot,
        ),
    decreases items.len() - n,
{
    if n < items.len() {
        let next = items.subrange(0, n + 1);
        assert(next.drop_last() =~= items.subrange(0, n));
        lemma_add_items_stopped(es, items, n + 1, header, features, annot);
    } else {
        assert(items.subrange(0, n) =~= items);
    }
}

fn render_items(name: &String, body: &DeclBody) -> (r: Vec<(String, String)>)
    ensures
        r@.map_values(|p: (String, String)| (p.0@, p.1@)) == items_of(name@, *body),
{
    let mut r: Vec<(String, String)> = Vec::new();
    match body {
        DeclBody::Macro { .. } => {
            assert(r@.map_values(|p: (String, String)| (p.0@, p.1@)) =~= items_of(name@, *body));
        },
        DeclBody::Typedef { underlying } => {
            r.push((name.clone(), typedef_decl(name.as_str(), underlying)));
            assert(r@.map_values(|p: (String, String)| (p.0@, p.1@)) =~= items_of(name@, *body));
        },
        DeclBody::Struct { fields, packed } => {
            r.push((name.clone(), struct_decl(name.as_str(), fields, *packed)));
            assert(r@.map_values(|p: (String, String)| (p.0@, p.1@)) =~= items_of(name@, *body));
        },
        DeclBody::Union { payload, fields } => {
            r.push((name.clone(), union_decl(name.as_str(), payload)));
            let mut i: usize = 0;
            while i < fields.len()
                invariant
                    i <= fields@.len(),
                    r@.len() == i + 1,
                    r@[0].0@ == name@,
                    r@[0].1@ == union_text(name@, payload@),
                    forall|k: int| 0 <= k < i ==> (#[trigger] r@[k + 1]).0@ == name@ + "."@ + fields@[k].name@
                        && r@[k + 1].1@ == union_field_text(name@, fields@[k]),
                decreases fields@.len() - i,
            {
                let mut key = name.clone();
                key.append(".");
                key.append(fields[i].name.as_str());
                r.push((key, union_field_decl(name.as_str(), &fields[i])));
                i = i + 1;
            }
            let ghost want = items_of(name@, *body);
            let ghost got = r@.map_values(|p: (String, String)| (p.0@, p.1@));
            assert(want.len() == got.len());
            assert forall|k: int| 0 <= k < got.len() implies got[k] == want[k] by {
                if k > 0 {
                    assert(r@[(k - 1) + 1] == r@[k]);
                }
            }
            assert(got =~= want);
        },
        DeclBody::Enum { constants } => {
            r.push((name.clone(), enum_decl(name.as_str(), constants)));
            let mut key = name.clone();
            key.append("::*");
            r.push((key, enum_use_decl(name.as_str(), constants)));
            assert(r@.map_values(|p: (String, String)| (p.0@, p.1@)) =~= items_of(name@, *body));
        },
        DeclBody::Function { cc, params, variadic, result } => {
            match function_decl(name.as_str(), *cc, params, *variadic, result) {
                Some(t) => r.push((name.clone(), t)),
                None => {},
            }
            assert(r@.map_values(|p: (String, String)| (p.0@, p.1@)) =~= items_of(name@, *body));
        },
        DeclBody::Variable { ty, is_const } => {
            r.push((name.clone(), variable_decl(name.as_str(), ty, *is_const)));
            assert(r@.map_values(|p: (String, String)| (p.0@, p.1@)) =~= items_of(name@, *body));
        },
    }
    r
}

fn header_wanted(wanted: &Vec<String>, header: &String) -> (r: bool)
    ensures
        r == wanted@.map_values(|h: String| h@).contains(header@),
{
    let ghost w = wanted@.map_values(|h: String| h@);
    let mut i: usize = 0;
    while i < wanted.len()
        invariant
            w == wanted@.map_values(|h: String| h@),
            i <= wanted@.len(),
            forall|k: int| 0 <= k < i ==> w[k] != header@,
        decreases wanted@.len() - i,
    {
        if same_text(wanted[i].as_str(), header.as_str()) {
            assert(w[i as int] == header@);
            return true;
        }
        i = i + 1;
    }
    false
}

/// Processes one declaration: `None` when its header is not requested, else
/// how it ended.
pub fn process_decl(
    d: &Decl,
    wanted: &Vec<String>,
    output: &mut OutputItems,
    feat: &Features,
    emit_stubs: bool,
) -> (r: Option<Result<(), MacroError>>)
    requires
        old(output).wf(),
        feat.wf(),
    ensures
        final(output).wf(),
        decl_result(old(output)@, *d, wanted@.map_values(|h: String| h@), feat@, emit_stubs) == (
            final(output)@,
            match r {
                Some(x) => Some(outcome_of(x)),
                None => None,
            },
        ),
{
    if !header_wanted(wanted, &d.header) {
        return None;
    }
    match &d.body {
        DeclBody::Macro { tokens } => {
            let defn = MacroDefinition {
                name: d.name.clone(),
                header: d.header.clone(),
                annotation: d.annotation.clone(),
                tokens: copy_tokens(tokens),
            };
            proof {
                assert(is_functionish(defn.tokens@) == is_functionish(tokens@));
                assert(inner_spellings(defn.tokens@) =~= inner_spellings(tokens@));
            }
            Some(process_macro_defn(&defn, output, feat, emit_stubs))
        },
        DeclBody::Function { cc, .. } if abi_name(*cc).is_none() => Some(Err(MacroError::Unsupported)),
        _ => {
            let items = render_items(&d.name, &d.body);
            Some(add_item_list(output, &items, &d.header, feat, &d.annotation))
        },
    }
}

fn copy_tokens(toks: &Vec<MacroToken>) -> (r: Vec<MacroToken>)
    ensures
        r@.len() == toks@.len(),
        forall|k: int| 0 <= k < toks@.len() ==> {
            &&& (#[trigger] r@[k]).spelling@ == toks@[k].spelling@
            &&& r@[k].start_column == toks@[k].start_column
            &&& r@[k].end_column == toks@[k].end_column
        },
{
    let mut r: Vec<MacroToken> = Vec::new();
    let mut i: usize = 0;
    while i < toks.len()
        invariant
            i <= toks@.len(),
            r@.len() == i,
            forall|k: int| 0 <= k < i ==> {
                &&& (#[trigger] r@[k]).spelling@ == toks@[k].spelling@
                &&& r@[k].start_column == toks@[k].start_column
                &&& r@[k].end_column == toks@[k].end_column
            },
        decreases toks@.len() - i,
    {
        r.push(
            MacroToken {
                spelling: toks[i].spelling.clone(),
                start_column: toks[i].start_column,
                end_column: toks[i].end_column,
            },
        );
        i = i + 1;
    }
    r
}

/// Processes the declarations in order: those of the requested headers are
/// added to the output; the failures are returned, in order, and do not stop
/// the walk.
pub fn process_decls(
    decls: &Vec<Decl>,
    wanted: &Vec<String>,
    output: &mut OutputItems,
    feat: &Features,
    emit_stubs: bool,
) -> (r: Vec<ItemFailure>)
    requires
        old(output).wf(),
        feat.wf(),
    ensures
        final(output).wf(),
        walk_result(old(output)@, decls@, wanted@.map_values(|h: String| h@), feat@, emit_stubs) == (
            final(output)@,
            failures_view(r@),
        ),
{
    let ghost w = wanted@.map_values(|h: String| h@);
    let mut fails: Vec<ItemFailure> = Vec::new();
    let mut i: usize = 0;
    assert(failures_view(fails@) =~= Seq::<(Seq<char>, MacroOutcome)>::empty());
    while i < decls.len()
        invariant
            output.wf(),
            feat.wf(),
            w == wanted@.map_values(|h: String| h@),
            i <= decls@.len(),
            walk_result(old(output)@, decls@.subrange(0, i as int), w, feat@, emit_stubs) == (
                output@,
                failures_view(fails@),
            ),
        decreases decls@.len() - i,
    {
        let ghost next = decls@.subrange(0, i + 1);
        assert(next.drop_last() =~= decls@.subrange(0, i as int));
        assert(next.last() == decls@[i as int]);
        let ghost before = fails@;
        match process_decl(&decls[i], wanted, output, feat, emit_stubs) {
            Some(Err(e)) => {
                fails.push(ItemFailure { name: decls[i].name.clone(), error: e });
                assert(failures_view(fails@) =~= failures_view(before).push(
                    (decls@[i as int].name@, outcome_of(Err(fails@.last().error))),
                ));
            },
            _ => {},
        }
        i = i + 1;
    }
    assert(decls@.subrange(0, i as int) =~= decls@);
    fails
}

} // verus!
