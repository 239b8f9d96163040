//! The group composer.
//!
//! A group bundles several declared interfaces behind one opaque handle:
//! one instance slot, one shared-context slot, and the union of every
//! member interface's temp-storage fields.  A group naming an undeclared
//! interface, or naming one twice, is a configuration error and aborts the
//! group's generation.

use vstd::prelude::*;

verus! {

use crate::strutil::str_is;

/// One declared interface, as the composer sees it: its name and the
/// temp-storage fields its methods reserved.
pub struct InterfaceDecl {
    pub name: String,
    pub ret_tmp_fields: String,
}

/// Spec-level mirror of [`InterfaceDecl`].
#[verifier::ext_equal]
pub struct InterfaceDeclV {
    pub name: Seq<char>,
    pub ret_tmp_fields: Seq<char>,
}

impl View for InterfaceDecl {
    type V = InterfaceDeclV;

    open spec fn view(&self) -> InterfaceDeclV {
        InterfaceDeclV { name: self.name@, ret_tmp_fields: self.ret_tmp_fields@ }
    }
}

pub open spec fn decls_view(s: Seq<InterfaceDecl>) -> Seq<InterfaceDeclV>
    decreases s,
{
    if s.len() == 0 {
        Seq::empty()
    } else {
        seq![s[0]@] + decls_view(s.drop_first())
    }
}

pub proof fn lemma_decls_view_len(s: Seq<InterfaceDecl>)
    ensures
        decls_view(s).len() == s.len(),
        forall|i: int| 0 <= i < s.len() ==> decls_view(s)[i] == (#[trigger] s[i])@,
    decreases s,
{
    if s.len() > 0 {
        lemma_decls_view_len(s.drop_first());
        assert forall|i: int| 0 <= i < s.len() implies decls_view(s)[i] == (#[trigger] s[i])@ by {
            if i > 0 {
                assert(s.drop_first()[i - 1] == s[i]);
            }
        }
    }
}

pub open spec fn names_view(s: Seq<String>) -> Seq<Seq<char>>
    decreases s,
{
    if s.len() == 0 {
        Seq::empty()
    } else {
        seq![s[0]@] + names_view(s.drop_first())
    }
}

pub proof fn lemma_names_view_len(s: Seq<String>)
    ensures
        names_view(s).len() == s.len(),
        forall|i: int| 0 <= i < s.len() ==> names_view(s)[i] == (#[trigger] s[i])@,
    decreases s,
{
    if s.len() > 0 {
        lemma_names_view_len(s.drop_first());
        assert forall|i: int| 0 <= i < s.len() implies names_view(s)[i] == (#[trigger] s[i])@ by {
            if i > 0 {
                assert(s.drop_first()[i - 1] == s[i]);
            }
        }
    }
}

/// A group: its name and the ordered list of member interface names.
pub struct GroupDescriptor {
    pub name: String,
    pub members: Vec<String>,
}

/// A configuration error of a group.
#[derive(Debug)]
pub enum GroupError {
    /// A member interface that was never declared.
    Undeclared(String),
    /// A member interface named twice.
    Duplicate(String),
}

/// The index of the declared interface with the given name.
pub open spec fn spec_decl_lookup(decls: Seq<InterfaceDeclV>, name: Seq<char>) -> Option<int>
    decreases decls,
{
    if decls.len() == 0 {
        Option::None
    } else if decls[0].name == name {
        Option::Some(0int)
    } else {
        match spec_decl_lookup(decls.drop_first(), name) {
            Option::Some(i) => Option::Some(i + 1),
            Option::None => Option::None,
        }
    }
}

/// Whether `name` occurs among the first `k` members.
pub open spec fn spec_member_among(members: Seq<Seq<char>>, k: int, name: Seq<char>) -> bool
    decreases k,
{
    if k <= 0 {
        false
    } else {
        members[k - 1] == name || spec_member_among(members, k - 1, name)
    }
}

/// The first configuration error of a group, scanning members in order:
/// an undeclared member, or one already named before it.
pub open spec fn spec_group_check(
    members: Seq<Seq<char>>,
    decls: Seq<InterfaceDeclV>,
    k: int,
) -> Option<(bool, Seq<char>)>
    decreases members.len() - k,
{
    if k < 0 || k >= members.len() {
        Option::None
    } else if spec_decl_lookup(decls, members[k]) is None {
        Option::Some((false, members[k]))
    } else if spec_member_among(members, k, members[k]) {
        Option::Some((true, members[k]))
    } else {
        spec_group_check(members, decls, k + 1)
    }
}

/// The concatenated temp-storage fields of the members, in member order.
pub open spec fn spec_group_fields(
    members: Seq<Seq<char>>,
    decls: Seq<InterfaceDeclV>,
    k: int,
) -> Seq<char>
    decreases members.len() - k,
{
    if k < 0 || k >= members.len() {
        ""@
    } else {
        (match spec_decl_lookup(decls, members[k]) {
            Option::Some(i) => if 0 <= i < decls.len() {
                decls[i].ret_tmp_fields
            } else {
                ""@
            },
            Option::None => ""@,
        }) + spec_group_fields(members, decls, k + 1)
    }
}

/// The composed group container: one instance slot, one shared-context
/// slot, and the union of the members' temp-storage fields.
pub open spec fn spec_group_container(
    name: Seq<char>,
    members: Seq<Seq<char>>,
    decls: Seq<InterfaceDeclV>,
) -> Seq<char> {
    "#[repr(C)] pub struct "@ + name
        + "Container<CGlueInst, CGlueCtx> { instance: CGlueInst, context: CGlueCtx, "@
        + spec_group_fields(members, decls, 0) + "}"@
}

fn decl_lookup(decls: &Vec<InterfaceDecl>, name: &String) -> (r: Option<usize>)
    ensures
        (match r {
            Option::Some(i) => spec_decl_lookup(decls_view(decls@), name@) == Option::Some(
                i as int,
            ) && i < decls@.len(),
            Option::None => spec_decl_lookup(decls_view(decls@), name@) is None,
        }),
{
    proof {
        lemma_decls_view_len(decls@);
        assert(decls_view(decls@).subrange(0, decls_view(decls@).len() as int) =~= decls_view(
            decls@,
        ));
    }
    let ghost dv = decls_view(decls@);
    let mut i: usize = 0;
    while i < decls.len()
        invariant
            i <= decls@.len(),
            dv == decls_view(decls@),
            dv.len() == decls@.len(),
            forall|j: int| 0 <= j < decls@.len() ==> dv[j] == (#[trigger] decls@[j])@,
            spec_decl_lookup(dv, name@) == (match spec_decl_lookup(
                dv.subrange(i as int, dv.len() as int),
                name@,
            ) {
                Option::Some(x) => Option::Some(x + i),
                Option::None => Option::<int>::None,
            }),
        decreases decls@.len() - i,
    {
        if str_is(&decls[i].name, name.as_str()) {
            proof {
                assert(dv.subrange(i as int, dv.len() as int)[0] == dv[i as int]);
            }
            return Option::Some(i);
        }
        proof {
            assert(dv.subrange(i as int, dv.len() as int)[0] == dv[i as int]);
            assert(dv.subrange(i as int, dv.len() as int).drop_first() =~= dv.subrange(
                i as int + 1,
                dv.len() as int,
            ));
        }
        i = i + 1;
    }
    proof {
        assert(dv.subrange(i as int, dv.len() as int).len() == 0);
    }
    Option::None
}

impl GroupDescriptor {
    /// Validates the group and composes its container: every member must
    /// be declared, and no member may be named twice; the first offending
    /// member is reported.  On success the composed container holds
    /// exactly the members' temp-storage fields, in member order.
    pub fn compose(&self, decls: &Vec<InterfaceDecl>) -> (r: Result<String, GroupError>)
        ensures
            (match r {
                Result::Ok(text) => spec_group_check(
                    names_view(self.members@),
                    decls_view(decls@),
                    0,
                ) is None && text@ == spec_group_container(
                    self.name@,
                    names_view(self.members@),
                    decls_view(decls@),
                ),
                Result::Err(GroupError::Undeclared(m)) => spec_group_check(
                    names_view(self.members@),
                    decls_view(decls@),
                    0,
                ) == Option::Some((false, m@)),
                Result::Err(GroupError::Duplicate(m)) => spec_group_check(
                    names_view(self.members@),
                    decls_view(decls@),
                    0,
                ) == Option::Some((true, m@)),
            }),
    {
        proof {
            reveal_strlit("");
            lemma_names_view_len(self.members@);
            lemma_decls_view_len(decls@);
        }
        let ghost mv = names_view(self.members@);
        let ghost dv = decls_view(decls@);
        let mut fields = String::new();
        let mut k: usize = 0;
        while k < self.members.len()
            invariant
                k <= self.members@.len(),
                mv == names_view(self.members@),
                dv == decls_view(decls@),
                mv.len() == self.members@.len(),
                dv.len() == decls@.len(),
                forall|j: int| 0 <= j < self.members@.len() ==> mv[j] == (
                #[trigger] self.members@[j])@,
                forall|j: int| 0 <= j < decls@.len() ==> dv[j] == (#[trigger] decls@[j])@,
                spec_group_check(mv, dv, 0) == spec_group_check(mv, dv, k as int),
                fields@ =~= spec_group_fields_prefix(mv, dv, k as int),
            decreases self.members@.len() - k,
        {
            let m = &self.members[k];
            match decl_lookup(decls, m) {
                Option::None => {
                    return Result::Err(GroupError::Undeclared(m.clone()));
                },
                Option::Some(di) => {
                    let mut j: usize = 0;
                    while j < k
                        invariant
                            j <= k < self.members@.len(),
                            mv == names_view(self.members@),
                            mv.len() == self.members@.len(),
                            forall|x: int| 0 <= x < self.members@.len() ==> mv[x] == (
                            #[trigger] self.members@[x])@,
                            m@ == mv[k as int],
                            dv == decls_view(decls@),
                            spec_group_check(mv, dv, 0) == spec_group_check(mv, dv, k as int),
                            spec_decl_lookup(dv, mv[k as int]) is Some,
                            !spec_member_among(mv, j as int, mv[k as int]),
                        decreases k - j,
                    {
                        if str_is(&self.members[j], m.as_str()) {
                            proof {
                                assert(mv[j as int] == mv[k as int]);
                                assert(spec_member_among(mv, j as int + 1, mv[k as int]));
                                lemma_member_among_mono(mv, j as int + 1, k as int, mv[k as int]);
                            }
                            return Result::Err(GroupError::Duplicate(m.clone()));
                        }
                        proof {
                            assert(mv[j as int] != mv[k as int]);
                            assert(!spec_member_among(mv, j as int + 1, mv[k as int]));
                        }
                        j = j + 1;
                    }
                    fields.append(decls[di].ret_tmp_fields.as_str());
                    proof {
                        assert(fields@ =~= spec_group_fields_prefix(mv, dv, k as int + 1));
                    }
                },
            }
            k = k + 1;
        }
        let mut out = String::new();
        out.append("#[repr(C)] pub struct ");
        out.append(self.name.as_str());
        out.append("Container<CGlueInst, CGlueCtx> { instance: CGlueInst, context: CGlueCtx, ");
        out.append(fields.as_str());
        out.append("}");
        proof {
            lemma_group_fields_prefix_full(mv, dv);
            assert(out@ =~= spec_group_container(self.name@, mv, dv));
        }
        Result::Ok(out)
    }
}

/// The concatenated fields of the first `k` members.
pub open spec fn spec_group_fields_prefix(
    members: Seq<Seq<char>>,
    decls: Seq<InterfaceDeclV>,
    k: int,
) -> Seq<char>
    decreases k,
{
    if k <= 0 {
        ""@
    } else {
        spec_group_fields_prefix(members, decls, k - 1) + (match spec_decl_lookup(
            decls,
            members[k - 1],
        ) {
            Option::Some(i) => if 0 <= i < decls.len() {
                decls[i].ret_tmp_fields
            } else {
                ""@
            },
            Option::None => ""@,
        })
    }
}

pub proof fn lemma_group_fields_prefix_full(members: Seq<Seq<char>>, decls: Seq<InterfaceDeclV>)
    ensures
        spec_group_fields_prefix(members, decls, members.len() as int) == spec_group_fields(
            members,
            decls,
            0,
        ),
{
    reveal_strlit("");
    lemma_group_fields_agree(members, decls, 0);
    assert(spec_group_fields_prefix(members, decls, 0) =~= ""@);
    assert(""@ + spec_group_fields(members, decls, 0) =~= spec_group_fields(members, decls, 0));
}

proof fn lemma_group_fields_agree(members: Seq<Seq<char>>, decls: Seq<InterfaceDeclV>, k: int)
    requires
        0 <= k <= members.len(),
    ensures
        spec_group_fields_prefix(members, decls, k) + spec_group_fields(members, decls, k)
            == spec_group_fields_prefix(members, decls, members.len() as int),
    decreases members.len() - k,
{
    reveal_strlit("");
    if k < members.len() {
        lemma_group_fields_agree(members, decls, k + 1);
        assert(spec_group_fields_prefix(members, decls, k) + spec_group_fields(members, decls, k)
            =~= spec_group_fields_prefix(members, decls, k + 1) + spec_group_fields(
            members,
            decls,
            k + 1,
        ));
    } else {
        assert(spec_group_fields_prefix(members, decls, k) + spec_group_fields(members, decls, k)
            =~= spec_group_fields_prefix(members, decls, k));
    }
}

/// Membership among a longer prefix includes the shorter one.
pub proof fn lemma_member_among_mono(
    members: Seq<Seq<char>>,
    a: int,
    b: int,
    name: Seq<char>,
)
    requires
        0 <= a <= b,
        spec_member_among(members, a, name),
    ensures
        spec_member_among(members, b, name),
    decreases b - a,
{
    if a < b {
        lemma_member_among_mono(members, a + 1, b, name);
    }
}

} // verus!
