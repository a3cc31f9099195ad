//! The grammar of interfaces and of type collections: attributes, methods,
//! broadcasts and type definitions, in any order in which they are declared.

use vstd::prelude::*;
use crate::ast::{
    FArgument, FArgumentView, FAttribute, FAttributeView, FBroadcast, FBroadcastView,
    FEnumerationType, FEnumerationTypeView, FInterface, FInterfaceView, FMember, FMemberView,
    FMethod, FMethodView, FType, FTypeCollection, FTypeCollectionView, FTypeView,
};
use crate::decl::{
    spec_arguments, spec_array_marker, spec_opt_annotation_block, spec_opt_version, arguments,
    array_marker, opt_annotation_block, opt_version,
};
use crate::lexer::{
    Cursor, Keyword, Parsed, SpecParsed, agrees, advances, spec_behind, within, yield_at,
    spec_e_string, spec_fqn, ws0, ws1, sp0, sp1, kw, keyword, ch, eol, e_string, fqn,
};
use crate::scan::starts_with;
use crate::typedefs::{
    spec_enumerators, spec_f_type, spec_opt_extends, spec_opt_flag, spec_starts_declaration,
    spec_starts_type, spec_types, enumerators, f_type, opt_extends, opt_flag, starts_declaration,
    starts_type, types,
};
use crate::types::{spec_f_type_ref, f_type_ref};

verus! {

/// What a flag makes of an optional truth value: present where it is set.
pub open spec fn flag_value(set: bool) -> Option<bool> {
    if set {
        Some(true)
    } else {
        None
    }
}

/// What a flag makes of an optional word: the keyword where it is set.
pub open spec fn flag_word(k: Keyword, set: bool) -> Option<Seq<char>> {
    if set {
        Some(k.spec_text())
    } else {
        None
    }
}

/// An attribute: `attribute TYPE NAME`, an optional array marker, and the
/// optional flags `readonly` and `noSubscriptions`, in this order.
#[verifier::opaque]
pub open spec fn spec_f_attribute(s: Seq<char>) -> SpecParsed<FAttributeView> {
    let (s0, comment) = spec_opt_annotation_block(s);
    match Cursor::At(s0).ws0().kw(Keyword::Attribute).sp1() {
        Cursor::Failed(e) => Err(e),
        Cursor::At(s1) => match spec_f_type_ref(s1) {
            Err(e) => Err(e),
            Ok((s2, type_ref)) => match Cursor::At(s2).sp1() {
                Cursor::Failed(e) => Err(e),
                Cursor::At(s3) => match spec_e_string(s3) {
                    Err(e) => Err(e),
                    Ok((s4, name)) => {
                        let (s5, array) = spec_array_marker(s4);
                        let (s6, readonly) = spec_opt_flag(Keyword::Readonly, s5);
                        let (s7, no_subscriptions) = spec_opt_flag(Keyword::NoSubscriptions, s6);
                        Ok(
                            (
                                s7,
                                FAttributeView {
                                    name,
                                    comment,
                                    type_ref,
                                    array,
                                    readonly: flag_value(readonly),
                                    no_subscriptions: flag_value(no_subscriptions),
                                },
                            ),
                        )
                    },
                },
            },
        },
    }
}

/// Reads an attribute.
pub fn f_attribute(s: &str) -> (r: Parsed<FAttribute>)
    ensures
        agrees(r, spec_f_attribute(s@)),
        advances(r, s@),
{
    proof {
        reveal(spec_f_attribute);
    }
    let (s0, comment) = opt_annotation_block(s);
    let s0 = ws0(s0);
    let s0 = kw(Keyword::Attribute, s0)?;
    let s1 = sp1(s0)?;
    let (s2, type_ref) = f_type_ref(s1)?;
    let s3 = sp1(s2)?;
    let (s4, name) = e_string(s3)?;
    let (s5, array) = array_marker(s4);
    let (s6, is_readonly) = opt_flag(Keyword::Readonly, s5);
    let (s7, has_no_subscriptions) = opt_flag(Keyword::NoSubscriptions, s6);
    let readonly = if is_readonly {
        Some(true)
    } else {
        None
    };
    let no_subscriptions = if has_no_subscriptions {
        Some(true)
    } else {
        None
    };
    Ok(
        (
            s7,
            FAttribute {
                name: name.to_string(),
                comment,
                type_ref,
                array,
                readonly,
                no_subscriptions,
            },
        ),
    )
}

/// A block of arguments behind the keyword `k`: `k { arguments }`.
pub open spec fn spec_argument_block(k: Keyword, s: Seq<char>) -> SpecParsed<Seq<FArgumentView>> {
    match Cursor::At(s).ws0().kw(k).ws1().ch('{') {
        Cursor::Failed(e) => Err(e),
        Cursor::At(s1) => yield_at(
            Cursor::At(spec_arguments(s1).0).ws0().ch('}'),
            spec_arguments(s1).1,
        ),
    }
}

/// Reads a block of arguments behind the keyword `k`.
fn argument_block(k: Keyword, s: &str) -> (r: Parsed<Vec<FArgument>>)
    ensures
        agrees(r, spec_argument_block(k, s@)),
        advances(r, s@),
{
    let s0 = ws0(s);
    let s0 = kw(k, s0)?;
    let s0 = ws1(s0)?;
    let s1 = ch('{', s0)?;
    let (s2, args) = arguments(s1);
    let s2 = ws0(s2);
    let s3 = ch('}', s2)?;
    Ok((s3, args))
}

/// The arguments that a method takes: `in { arguments }`.
pub open spec fn spec_f_method_in_args(s: Seq<char>) -> SpecParsed<Seq<FArgumentView>> {
    spec_argument_block(Keyword::In, s)
}

/// Reads the arguments that a method takes.
pub fn f_method_in_args(s: &str) -> (r: Parsed<Vec<FArgument>>)
    ensures
        agrees(r, spec_f_method_in_args(s@)),
        advances(r, s@),
{
    argument_block(Keyword::In, s)
}

/// The arguments that a method or a broadcast gives: `out { arguments }`.
pub open spec fn spec_f_method_out_args(s: Seq<char>) -> SpecParsed<Seq<FArgumentView>> {
    spec_argument_block(Keyword::Out, s)
}

/// Reads the arguments that a method or a broadcast gives.
pub fn f_method_out_args(s: &str) -> (r: Parsed<Vec<FArgument>>)
    ensures
        agrees(r, spec_f_method_out_args(s@)),
        advances(r, s@),
{
    argument_block(Keyword::Out, s)
}

/// A block of arguments behind the keyword `k`, where one stands at the
/// start of `s`.
pub open spec fn spec_opt_argument_block(k: Keyword, s: Seq<char>) -> (
    Seq<char>,
    Option<Seq<FArgumentView>>,
) {
    match spec_argument_block(k, s) {
        Ok((rest, args)) => (rest, Some(args)),
        Err(_) => (s, None),
    }
}

/// Reads a block of arguments behind the keyword `k` where one stands at the
/// start of `s`.
fn opt_argument_block(k: Keyword, s: &str) -> (r: (&str, Option<Vec<FArgument>>))
    ensures
        r.0@ == spec_opt_argument_block(k, s@).0,
        r.1.deep_view() == spec_opt_argument_block(k, s@).1,
        r.0@.len() <= s@.len(),
{
    match argument_block(k, s) {
        Ok((rest, args)) => (rest, Some(args)),
        Err(_) => (s, None),
    }
}

/// The errors of a method: `error` and then either the name of an
/// enumeration, or enumerators between braces, which make an enumeration
/// without a name.
#[verifier::opaque]
pub open spec fn spec_f_method_errors(s: Seq<char>) -> SpecParsed<
    (Option<Seq<char>>, Option<FEnumerationTypeView>),
> {
    match Cursor::At(s).ws0().word(Keyword::Error).ws0() {
        Cursor::Failed(e) => Err(e),
        Cursor::At(s1) => if starts_with(s1, '{') {
            yield_at(
                Cursor::At(spec_enumerators(s1.skip(1)).0).ws0().ch('}'),
                (
                    None,
                    Some(
                        FEnumerationTypeView {
                            name: Seq::empty(),
                            comment: None,
                            enumerators: spec_enumerators(s1.skip(1)).1,
                            base: None,
                        },
                    ),
                ),
            )
        } else {
            match spec_fqn(s1) {
                Ok((rest, name)) => Ok((rest, (Some(name), None))),
                Err(e) => Err(e),
            }
        },
    }
}

/// Reads the errors of a method.
pub fn f_method_errors(s: &str) -> (r: Parsed<(Option<String>, Option<FEnumerationType>)>)
    ensures
        agrees(r, spec_f_method_errors(s@)),
        advances(r, s@),
{
    proof {
        reveal(spec_f_method_errors);
    }
    let s0 = ws0(s);
    let s0 = keyword(Keyword::Error, s0)?;
    let s1 = ws0(s0);
    match ch('{', s1) {
        Ok(s2) => {
            let (s3, enumerators) = enumerators(s2);
            let s3 = ws0(s3);
            let s4 = ch('}', s3)?;
            let errors = FEnumerationType {
                name: String::new(),
                comment: None,
                enumerators,
                base: None,
            };
            Ok((s4, (None, Some(errors))))
        },
        Err(_) => {
            let (s2, name) = fqn(s1)?;
            Ok((s2, (Some(name.to_string()), None)))
        },
    }
}

/// The errors of a method, where they are declared.
pub open spec fn spec_opt_method_errors(s: Seq<char>) -> (
    Seq<char>,
    (Option<Seq<char>>, Option<FEnumerationTypeView>),
) {
    match spec_f_method_errors(s) {
        Ok((rest, errors)) => (rest, errors),
        Err(_) => (s, (None, None)),
    }
}

/// What a method takes: the arguments of the `in` block that was read in
/// front of the `out` block or, where there was none, behind it.
pub open spec fn in_args_of(
    first: Option<Seq<FArgumentView>>,
    second: Option<Seq<FArgumentView>>,
) -> Seq<FArgumentView> {
    match first {
        Some(args) => args,
        None => match second {
            Some(args) => args,
            None => Seq::empty(),
        },
    }
}

/// What a method gives: the arguments of its `out` block, if it has one.
pub open spec fn out_args_of(out: Option<Seq<FArgumentView>>) -> Seq<FArgumentView> {
    match out {
        Some(args) => args,
        None => Seq::empty(),
    }
}

/// No arguments.
fn no_arguments() -> (r: Vec<FArgument>)
    ensures
        r.deep_view() == Seq::<FArgumentView>::empty(),
{
    let r = Vec::new();
    assert(r.deep_view() =~= Seq::<FArgumentView>::empty());
    r
}

/// A method: `method NAME {`, the optional flag `fireAndForget`, an `in`
/// block and an `out` block, each optional and in either order, the optional
/// errors, `}` and a line ending.
#[verifier::opaque]
pub open spec fn spec_f_method(s: Seq<char>) -> SpecParsed<FMethodView> {
    let (s0, comment) = spec_opt_annotation_block(s);
    match Cursor::At(s0).ws0().kw(Keyword::Method).sp1() {
        Cursor::Failed(e) => Err(e),
        Cursor::At(s1) => match spec_e_string(s1) {
            Err(e) => Err(e),
            Ok((s2, name)) => match Cursor::At(s2).ws1().ch('{') {
                Cursor::Failed(e) => Err(e),
                Cursor::At(s3) => {
                    let (s4, fire_and_forget) = spec_opt_flag(Keyword::FireAndForget, s3);
                    let (s5, first_in) = spec_opt_argument_block(Keyword::In, s4);
                    let (s6, out) = spec_opt_argument_block(Keyword::Out, s5);
                    let (s7, second_in) = if first_in is None {
                        spec_opt_argument_block(Keyword::In, s6)
                    } else {
                        (s6, None)
                    };
                    let (s8, errors) = spec_opt_method_errors(s7);
                    yield_at(
                        Cursor::At(s8).ws0().ch('}').sp0().eol(),
                        FMethodView {
                            name,
                            comment,
                            fire_and_forget: flag_word(Keyword::FireAndForget, fire_and_forget),
                            in_args: in_args_of(first_in, second_in),
                            out_args: out_args_of(out),
                            error_enum: errors.0,
                            errors: errors.1,
                        },
                    )
                },
            },
        },
    }
}

/// Reads a method.
pub fn f_method(s: &str) -> (r: Parsed<FMethod>)
    ensures
        agrees(r, spec_f_method(s@)),
        advances(r, s@),
{
    proof {
        reveal(spec_f_method);
    }
    let (s0, comment) = opt_annotation_block(s);
    let s0 = ws0(s0);
    let s0 = kw(Keyword::Method, s0)?;
    let s1 = sp1(s0)?;
    let (s2, name) = e_string(s1)?;
    let s2 = ws1(s2)?;
    let s3 = ch('{', s2)?;
    let (s4, is_fire_and_forget) = opt_flag(Keyword::FireAndForget, s3);
    let (s5, first_in) = opt_argument_block(Keyword::In, s4);
    let (s6, out) = opt_argument_block(Keyword::Out, s5);
    let (s7, in_args) = match first_in {
        Some(args) => (s6, args),
        None => match opt_argument_block(Keyword::In, s6) {
            (rest, Some(args)) => (rest, args),
            (rest, None) => (rest, no_arguments()),
        },
    };
    let out_args = match out {
        Some(args) => args,
        None => no_arguments(),
    };
    let (s8, error_enum, errors) = match f_method_errors(s7) {
        Ok((rest, (error_enum, errors))) => (rest, error_enum, errors),
        Err(_) => (s7, None, None),
    };
    let s8 = ws0(s8);
    let s8 = ch('}', s8)?;
    let s8 = sp0(s8);
    let s9 = eol(s8)?;
    let fire_and_forget = if is_fire_and_forget {
        Some(Keyword::FireAndForget.text().to_string())
    } else {
        None
    };
    Ok(
        (
            s9,
            FMethod {
                name: name.to_string(),
                comment,
                fire_and_forget,
                in_args,
                out_args,
                error_enum,
                errors,
            },
        ),
    )
}

/// A broadcast: `broadcast NAME {`, the optional flag `selective`, an `out`
/// block, and `}`.
#[verifier::opaque]
pub open spec fn spec_f_broadcast(s: Seq<char>) -> SpecParsed<FBroadcastView> {
    let (s0, comment) = spec_opt_annotation_block(s);
    match Cursor::At(s0).ws0().kw(Keyword::Broadcast).sp1() {
        Cursor::Failed(e) => Err(e),
        Cursor::At(s1) => match spec_e_string(s1) {
            Err(e) => Err(e),
            Ok((s2, name)) => match Cursor::At(s2).ws1().ch('{') {
                Cursor::Failed(e) => Err(e),
                Cursor::At(s3) => {
                    let (s4, selective) = spec_opt_flag(Keyword::Selective, s3);
                    match spec_f_method_out_args(s4) {
                        Err(e) => Err(e),
                        Ok((s5, out_args)) => yield_at(
                            Cursor::At(s5).ws0().ch('}'),
                            FBroadcastView {
                                name,
                                comment,
                                out_args,
                                selective: flag_word(Keyword::Selective, selective),
                            },
                        ),
                    }
                },
            },
        },
    }
}

/// Reads a broadcast.
pub fn f_broadcast(s: &str) -> (r: Parsed<FBroadcast>)
    ensures
        agrees(r, spec_f_broadcast(s@)),
        advances(r, s@),
{
    proof {
        reveal(spec_f_broadcast);
    }
    let (s0, comment) = opt_annotation_block(s);
    let s0 = ws0(s0);
    let s0 = kw(Keyword::Broadcast, s0)?;
    let s1 = sp1(s0)?;
    let (s2, name) = e_string(s1)?;
    let s2 = ws1(s2)?;
    let s3 = ch('{', s2)?;
    let (s4, is_selective) = opt_flag(Keyword::Selective, s3);
    let (s5, out_args) = f_method_out_args(s4)?;
    let s5 = ws0(s5);
    let s6 = ch('}', s5)?;
    let selective = if is_selective {
        Some(Keyword::Selective.text().to_string())
    } else {
        None
    };
    Ok((s6, FBroadcast { name: name.to_string(), comment, out_args, selective }))
}

/// What a parse of one kind of declaration makes of a member.
pub open spec fn spec_as_member<V>(
    parsed: SpecParsed<V>,
    wrap: spec_fn(V) -> FMemberView,
) -> SpecParsed<FMemberView> {
    match parsed {
        Ok((rest, v)) => Ok((rest, wrap(v))),
        Err(e) => Err(e),
    }
}

/// A member of an interface: the keyword at its start decides whether an
/// attribute, a method, a broadcast or a type definition is read.
#[verifier::opaque]
pub open spec fn spec_f_member(s: Seq<char>) -> SpecParsed<FMemberView> {
    if spec_starts_declaration(Keyword::Attribute, s) {
        spec_as_member(spec_f_attribute(s), |v| FMemberView::Attribute(v))
    } else if spec_starts_declaration(Keyword::Method, s) {
        spec_as_member(spec_f_method(s), |v| FMemberView::Method(v))
    } else if spec_starts_declaration(Keyword::Broadcast, s) {
        spec_as_member(spec_f_broadcast(s), |v| FMemberView::Broadcast(v))
    } else {
        spec_as_member(spec_f_type(s), |v| FMemberView::TypeDefinition(v))
    }
}

/// Reads a member of an interface.
pub fn f_member(s: &str) -> (r: Parsed<FMember>)
    ensures
        agrees(r, spec_f_member(s@)),
        advances(r, s@),
{
    proof {
        reveal(spec_f_member);
    }
    if starts_declaration(Keyword::Attribute, s) {
        let (rest, v) = f_attribute(s)?;
        Ok((rest, FMember::Attribute(v)))
    } else if starts_declaration(Keyword::Method, s) {
        let (rest, v) = f_method(s)?;
        Ok((rest, FMember::Method(v)))
    } else if starts_declaration(Keyword::Broadcast, s) {
        let (rest, v) = f_broadcast(s)?;
        Ok((rest, FMember::Broadcast(v)))
    } else {
        let (rest, v) = f_type(s)?;
        Ok((rest, FMember::TypeDefinition(v)))
    }
}

/// Whether a member of an interface starts at the start of `s`: the
/// keyword of an attribute, of a method, of a broadcast or of a type
/// definition stands there.
pub open spec fn spec_starts_member(s: Seq<char>) -> bool {
    ||| spec_starts_declaration(Keyword::Attribute, s)
    ||| spec_starts_declaration(Keyword::Method, s)
    ||| spec_starts_declaration(Keyword::Broadcast, s)
    ||| spec_starts_type(s)
}

/// Tells whether a member of an interface starts at the start of `s`.
pub fn starts_member(s: &str) -> (r: bool)
    ensures
        r == spec_starts_member(s@),
{
    starts_declaration(Keyword::Attribute, s) || starts_declaration(Keyword::Method, s)
        || starts_declaration(Keyword::Broadcast, s) || starts_type(s)
}

/// The attributes among `members`, in the order in which they stand there.
pub open spec fn attributes_of(members: Seq<FMemberView>) -> Seq<FAttributeView>
    decreases members.len(),
{
    if members.len() == 0 {
        Seq::empty()
    } else {
        match members.last() {
            FMemberView::Attribute(x) => attributes_of(members.drop_last()).push(x),
            _ => attributes_of(members.drop_last()),
        }
    }
}

/// The methods among `members`, in the order in which they stand there.
pub open spec fn methods_of(members: Seq<FMemberView>) -> Seq<FMethodView>
    decreases members.len(),
{
    if members.len() == 0 {
        Seq::empty()
    } else {
        match members.last() {
            FMemberView::Method(x) => methods_of(members.drop_last()).push(x),
            _ => methods_of(members.drop_last()),
        }
    }
}

/// The broadcasts among `members`, in the order in which they stand there.
pub open spec fn broadcasts_of(members: Seq<FMemberView>) -> Seq<FBroadcastView>
    decreases members.len(),
{
    if members.len() == 0 {
        Seq::empty()
    } else {
        match members.last() {
            FMemberView::Broadcast(x) => broadcasts_of(members.drop_last()).push(x),
            _ => broadcasts_of(members.drop_last()),
        }
    }
}

/// The type definitions among `members`, in the order in which they stand there.
pub open spec fn types_of(members: Seq<FMemberView>) -> Seq<FTypeView>
    decreases members.len(),
{
    if members.len() == 0 {
        Seq::empty()
    } else {
        match members.last() {
            FMemberView::TypeDefinition(x) => types_of(members.drop_last()).push(x),
            _ => types_of(members.drop_last()),
        }
    }
}

/// The methods of an interface stand in the order in which they are
/// declared, whatever is declared between them, and so do its broadcasts:
/// each list, its elements taken as members again, is what is left of the
/// members when all of another kind are dropped.
pub proof fn law_members_keep_order(members: Seq<FMemberView>)
    ensures
        methods_of(members).map_values(|m: FMethodView| FMemberView::Method(m))
            == members.filter(|x: FMemberView| x is Method),
        broadcasts_of(members).map_values(|b: FBroadcastView| FMemberView::Broadcast(b))
            == members.filter(|x: FMemberView| x is Broadcast),
    decreases members.len(),
{
    reveal(Seq::filter);
    if members.len() > 0 {
        law_members_keep_order(members.drop_last());
    }
    assert(methods_of(members).map_values(|m: FMethodView| FMemberView::Method(m))
        =~= members.filter(|x: FMemberView| x is Method));
    assert(broadcasts_of(members).map_values(|b: FBroadcastView| FMemberView::Broadcast(b))
        =~= members.filter(|x: FMemberView| x is Broadcast));
}

/// The members of an interface, sorted by kind.
pub struct FMembers {
    pub attributes: Vec<FAttribute>,
    pub methods: Vec<FMethod>,
    pub broadcasts: Vec<FBroadcast>,
    pub types: Vec<FType>,
}

impl FMembers {
    /// Whether the four lists hold the members `members`, each list those of
    /// its kind in the order in which they stand there.
    pub open spec fn holds(&self, members: Seq<FMemberView>) -> bool {
        &&& self.attributes.deep_view() == attributes_of(members)
        &&& self.methods.deep_view() == methods_of(members)
        &&& self.broadcasts.deep_view() == broadcasts_of(members)
        &&& self.types.deep_view() == types_of(members)
    }

    /// Puts `member` at the end of the list of its kind.
    fn add(&mut self, member: FMember, Ghost(before): Ghost<Seq<FMemberView>>)
        requires
            old(self).holds(before),
        ensures
            final(self).holds(before.push(member.deep_view())),
    {
        let ghost after = before.push(member.deep_view());
        assert(after.drop_last() =~= before);
        match member {
            FMember::Attribute(x) => {
                let ghost list = self.attributes.deep_view();
                self.attributes.push(x);
                assert(self.attributes.deep_view() =~= list.push(x.deep_view()));
            },
            FMember::Method(x) => {
                let ghost list = self.methods.deep_view();
                self.methods.push(x);
                assert(self.methods.deep_view() =~= list.push(x.deep_view()));
            },
            FMember::Broadcast(x) => {
                let ghost list = self.broadcasts.deep_view();
                self.broadcasts.push(x);
                assert(self.broadcasts.deep_view() =~= list.push(x.deep_view()));
            },
            FMember::TypeDefinition(x) => {
                let ghost list = self.types.deep_view();
                self.types.push(x);
                assert(self.types.deep_view() =~= list.push(x.deep_view()));
            },
        }
    }

    /// No members.
    pub fn new() -> (r: FMembers)
        ensures
            r.holds(Seq::empty()),
    {
        let r = FMembers {
            attributes: Vec::new(),
            methods: Vec::new(),
            broadcasts: Vec::new(),
            types: Vec::new(),
        };
        assert(r.attributes.deep_view() =~= Seq::empty());
        assert(r.methods.deep_view() =~= Seq::empty());
        assert(r.broadcasts.deep_view() =~= Seq::empty());
        assert(r.types.deep_view() =~= Seq::empty());
        r
    }
}


/// The members at the start of `s`, and what is left behind them. They
/// go on for as long as a member starts; one that starts and cannot be read
/// fails the whole.
#[verifier::opaque]
pub open spec fn spec_members(s: Seq<char>) -> SpecParsed<Seq<FMemberView>>
    decreases s.len(),
{
    if !spec_starts_member(s) {
        Ok((s, Seq::empty()))
    } else {
        match spec_f_member(s) {
            Err(e) => Err(e),
            Ok((rest, first)) => if rest.len() < s.len() {
                spec_behind(seq![first], spec_members(rest))
            } else {
                Ok((s, Seq::empty()))
            },
        }
    }
}

/// Reads members for as long as one starts, and sorts them by kind.
pub fn members(s: &str) -> (r: Parsed<FMembers>)
    ensures
        match spec_members(s@) {
            Ok((rest, all)) => r is Ok && r->Ok_0.0@ == rest && r->Ok_0.1.holds(all),
            Err(e) => r is Err && r->Err_0@ == e,
        },
        within(r, s@),
{
    let mut rest = s;
    let mut found = FMembers::new();
    let ghost mut seen: Seq<FMemberView> = Seq::empty();
    loop
        invariant
            rest@.len() <= s@.len(),
            spec_members(s@) == spec_behind(seen, spec_members(rest@)),
            found.holds(seen),
        decreases rest@.len(),
    {
        proof {
            reveal(spec_members);
        }
        if !starts_member(rest) {
            assert(seen + Seq::<FMemberView>::empty() =~= seen);
            return Ok((rest, found));
        }
        match f_member(rest) {
            Err(e) => {
                return Err(e);
            },
            Ok((next, one)) => {
                proof {
                    match spec_members(next@) {
                        Ok((_, tail)) => {
                            assert(seen.push(one.deep_view()) + tail =~= seen + (seq![
                                one.deep_view(),
                            ] + tail));
                        },
                        Err(_) => {},
                    }
                }
                found.add(one, Ghost(seen));
                proof {
                    seen = seen.push(one.deep_view());
                }
                rest = next;
            },
        }
    }
}

/// An interface: `interface NAME [extends BASE] {`, an optional version, the
/// members, and `}`.
#[verifier::opaque]
pub open spec fn spec_f_interface(s: Seq<char>) -> SpecParsed<FInterfaceView> {
    let (s0, comment) = spec_opt_annotation_block(s);
    match Cursor::At(s0).ws0().kw(Keyword::Interface).sp1() {
        Cursor::Failed(e) => Err(e),
        Cursor::At(s1) => match spec_e_string(s1) {
            Err(e) => Err(e),
            Ok((s2, name)) => {
                let (s3, base) = spec_opt_extends(s2);
                match Cursor::At(s3).ws1().ch('{') {
                    Cursor::Failed(e) => Err(e),
                    Cursor::At(s4) => {
                        let (s5, version) = spec_opt_version(s4);
                        match spec_members(s5) {
                            Err(e) => Err(e),
                            Ok((s6, members)) => yield_at(
                                Cursor::At(s6).ws0().ch('}'),
                                FInterfaceView {
                                    name,
                                    comment,
                                    version,
                                    base,
                                    attributes: attributes_of(members),
                                    methods: methods_of(members),
                                    broadcasts: broadcasts_of(members),
                                    types: types_of(members),
                                },
                            ),
                        }
                    },
                }
            },
        },
    }
}

/// The members that the text of an interface declares, in the order in
/// which they are declared: the members behind the header and the
/// version.
pub open spec fn spec_interface_members(s: Seq<char>) -> SpecParsed<Seq<FMemberView>> {
    let (s0, _) = spec_opt_annotation_block(s);
    match Cursor::At(s0).ws0().kw(Keyword::Interface).sp1() {
        Cursor::Failed(e) => Err(e),
        Cursor::At(s1) => match spec_e_string(s1) {
            Err(e) => Err(e),
            Ok((s2, _)) => match Cursor::At(spec_opt_extends(s2).0).ws1().ch('{') {
                Cursor::Failed(e) => Err(e),
                Cursor::At(s4) => spec_members(spec_opt_version(s4).0),
            },
        },
    }
}

/// An interface that is read lists its methods in the order in which its
/// text declares them, and its broadcasts too, however the two are
/// interleaved: each list, its elements taken as members again, is what is
/// left of the declared members when all of another kind are dropped.
pub proof fn law_interface_keeps_order(s: Seq<char>)
    ensures
        match spec_f_interface(s) {
            Ok((_, i)) => {
                &&& spec_interface_members(s) is Ok
                &&& i.methods.map_values(|m: FMethodView| FMemberView::Method(m))
                    == spec_interface_members(s)->Ok_0.1.filter(|x: FMemberView| x is Method)
                &&& i.broadcasts.map_values(|b: FBroadcastView| FMemberView::Broadcast(b))
                    == spec_interface_members(s)->Ok_0.1.filter(|x: FMemberView| x is Broadcast)
            },
            Err(_) => true,
        },
{
    reveal(spec_f_interface);
    match spec_interface_members(s) {
        Ok((_, members)) => {
            law_members_keep_order(members);
        },
        Err(_) => {},
    }
}

/// Reads an interface.
pub fn f_interface(s: &str) -> (r: Parsed<FInterface>)
    ensures
        agrees(r, spec_f_interface(s@)),
        advances(r, s@),
{
    proof {
        reveal(spec_f_interface);
    }
    let (s0, comment) = opt_annotation_block(s);
    let s0 = ws0(s0);
    let s0 = kw(Keyword::Interface, s0)?;
    let s1 = sp1(s0)?;
    let (s2, name) = e_string(s1)?;
    let (s3, base) = opt_extends(s2);
    let s3 = ws1(s3)?;
    let s4 = ch('{', s3)?;
    let (s5, version) = opt_version(s4);
    let (s6, found) = members(s5)?;
    let s6 = ws0(s6);
    let s7 = ch('}', s6)?;
    Ok(
        (
            s7,
            FInterface {
                name: name.to_string(),
                comment,
                version,
                base,
                attributes: found.attributes,
                methods: found.methods,
                broadcasts: found.broadcasts,
                types: found.types,
            },
        ),
    )
}

/// The name of a type collection, where it has one.
pub open spec fn spec_opt_collection_name(s: Seq<char>) -> (Seq<char>, Option<Seq<char>>) {
    match Cursor::At(s).sp1() {
        Cursor::Failed(_) => (s, None),
        Cursor::At(s1) => match spec_e_string(s1) {
            Ok((rest, name)) => (rest, Some(name)),
            Err(_) => (s, None),
        },
    }
}

/// A type collection: `typeCollection [NAME] {`, an optional version, type
/// definitions, and `}`.
#[verifier::opaque]
pub open spec fn spec_f_type_collection(s: Seq<char>) -> SpecParsed<FTypeCollectionView> {
    let (s0, comment) = spec_opt_annotation_block(s);
    match Cursor::At(s0).ws0().kw(Keyword::TypeCollection) {
        Cursor::Failed(e) => Err(e),
        Cursor::At(s1) => {
            let (s2, name) = spec_opt_collection_name(s1);
            match Cursor::At(s2).ws0().ch('{') {
                Cursor::Failed(e) => Err(e),
                Cursor::At(s3) => {
                    let (s4, version) = spec_opt_version(s3);
                    match spec_types(s4) {
                        Err(e) => Err(e),
                        Ok((s5, types)) => yield_at(
                            Cursor::At(s5).ws0().ch('}'),
                            FTypeCollectionView { name, comment, version, types },
                        ),
                    }
                },
            }
        },
    }
}

/// Reads a type collection.
pub fn f_type_collection(s: &str) -> (r: Parsed<FTypeCollection>)
    ensures
        agrees(r, spec_f_type_collection(s@)),
        advances(r, s@),
{
    proof {
        reveal(spec_f_type_collection);
    }
    let (s0, comment) = opt_annotation_block(s);
    let s0 = ws0(s0);
    let s1 = kw(Keyword::TypeCollection, s0)?;
    let (s2, name) = match sp1(s1) {
        Ok(named) => match e_string(named) {
            Ok((rest, name)) => (rest, Some(name.to_string())),
            Err(_) => (s1, None),
        },
        Err(_) => (s1, None),
    };
    let s2 = ws0(s2);
    let s3 = ch('{', s2)?;
    let (s4, version) = opt_version(s3);
    let (s5, types) = types(s4)?;
    let s5 = ws0(s5);
    let s6 = ch('}', s5)?;
    Ok((s6, FTypeCollection { name, comment, version, types }))
}

} // verus!
