//! The two forms of an item: the synchronous one, without markers and
//! suspensions, and the asynchronous one, behind the adapter attribute.

use vstd::prelude::*;
use crate::error::{MacroError, MacroErrorView};
use crate::item::{
    FunctionView, ImplBlockView, Member, MemberView, MethodView, SignatureView, TraitDeclView,
    members_view,
};
use crate::parse::{Item, ItemView};
use crate::render::render_item;
use crate::visit::{
    AsyncAwaitRemoval, lemma_strip_item_has_no_suspension, lemma_strip_item_keeps_synchronous,
    lemma_sync_parts_keep_synchronous, lemma_sync_stmts_keep_synchronous,
    strip_item, strip_member, strip_members, suspensions_in_item, suspensions_in_member,
};

verus! {

/// Whether the asynchronous form must be fit to cross thread boundaries.
#[derive(Clone, Copy, Debug, PartialEq, Eq, Structural)]
pub enum Capability {
    /// `Send`: the produced future may move to another thread.
    Shared,
    /// `?Send`: it stays where it was made.
    Local,
}

/// The text without its spaces.
pub open spec fn without_spaces(s: Seq<char>) -> Seq<char>
    decreases s.len(),
{
    if s.len() == 0 {
        Seq::empty()
    } else if s.last() == ' ' {
        without_spaces(s.drop_last())
    } else {
        without_spaces(s.drop_last()).push(s.last())
    }
}

/// The capability that an annotation's argument asks for. Spaces do not
/// count; no argument asks for `Send`.
pub open spec fn capability_of(args: Seq<char>) -> Option<Capability> {
    let bare = without_spaces(args);
    if bare.len() == 0 || bare == "Send"@ {
        Some(Capability::Shared)
    } else if bare == "?Send"@ {
        Some(Capability::Local)
    } else {
        None
    }
}

impl Capability {
    /// Reads the argument of an annotation.
    pub fn parse(args: &str) -> (r: Result<Capability, MacroError>)
        ensures
            match r {
                Ok(capability) => capability_of(args@) == Some(capability),
                Err(e) => capability_of(args@) is None && e@
                    == MacroErrorView::InvalidDirectionality,
            },
    {
        let mut bare: Vec<char> = Vec::new();
        assert(args@.take(0) =~= Seq::empty());
        for c in it: args.chars()
            invariant
                it.seq() == args@,
                bare@ == without_spaces(args@.take(it.index() as int)),
        {
            assert(args@.take(it.index() + 1).drop_last() =~= args@.take(it.index() as int));
            if c != ' ' {
                bare.push(c);
            }
        }
        assert(args@.take(args@.len() as int) =~= args@);
        proof {
            reveal_strlit("Send");
            reveal_strlit("?Send");
        }
        if bare.len() == 0 {
            Ok(Capability::Shared)
        } else if bare.len() == 4 && bare[0] == 'S' && bare[1] == 'e' && bare[2] == 'n' && bare[3]
            == 'd' {
            assert(bare@ =~= "Send"@);
            Ok(Capability::Shared)
        } else if bare.len() == 5 && bare[0] == '?' && bare[1] == 'S' && bare[2] == 'e' && bare[3]
            == 'n' && bare[4] == 'd' {
            assert(bare@ =~= "?Send"@);
            Ok(Capability::Local)
        } else {
            Err(MacroError::InvalidDirectionality)
        }
    }
}

/// A signature without its async marker. Nothing else of it changes.
pub open spec fn clear_marker(sig: SignatureView) -> SignatureView {
    SignatureView { is_async: false, ..sig }
}

/// A member without its async marker. Only a method has one.
pub open spec fn clear_member(m: MemberView) -> MemberView {
    match m {
        MemberView::Method(method) => MemberView::Method(
            MethodView { sig: clear_marker(method.sig), ..method },
        ),
        MemberView::Other(parts) => MemberView::Other(parts),
    }
}

/// Each member without its async marker, in its place.
pub open spec fn clear_members(s: Seq<MemberView>) -> Seq<MemberView> {
    Seq::new(s.len(), |i: int| clear_member(s[i]))
}

/// An item without async markers: on the function itself, or on each method
/// of a trait or of an implementation block.
pub open spec fn clear_markers(item: ItemView) -> ItemView {
    match item {
        ItemView::Trait(t) => ItemView::Trait(
            TraitDeclView { members: clear_members(t.members), ..t },
        ),
        ItemView::Impl(b) => ItemView::Impl(
            ImplBlockView { members: clear_members(b.members), ..b },
        ),
        ItemView::Fn(f) => ItemView::Fn(FunctionView { sig: clear_marker(f.sig), ..f }),
        ItemView::Static(s) => ItemView::Static(s),
    }
}

/// Whether a member is a method that carries the async marker.
pub open spec fn is_marked(m: MemberView) -> bool {
    m matches MemberView::Method(method) && method.sig.is_async
}

/// The number of members that carry the async marker.
pub open spec fn markers_in_members(s: Seq<MemberView>) -> nat
    decreases s.len(),
{
    if s.len() == 0 {
        0
    } else {
        markers_in_members(s.drop_last()) + if is_marked(s.last()) {
            1nat
        } else {
            0nat
        }
    }
}

/// The number of async markers on an item.
pub open spec fn async_markers(item: ItemView) -> nat {
    match item {
        ItemView::Trait(t) => markers_in_members(t.members),
        ItemView::Impl(b) => markers_in_members(b.members),
        ItemView::Fn(f) => if f.sig.is_async {
            1
        } else {
            0
        },
        ItemView::Static(s) => 0,
    }
}

/// The synchronous form of an item: its async markers cleared, then every
/// expression in it rewritten.
pub open spec fn sync_item(item: ItemView) -> ItemView {
    strip_item(clear_markers(item))
}

/// The attribute that asks for async support in traits.
pub open spec fn adapter(capability: Capability) -> Seq<char> {
    match capability {
        Capability::Shared => "#[async_trait::async_trait] "@,
        Capability::Local => "#[async_trait::async_trait(?Send)] "@,
    }
}

/// The asynchronous form of an item, as token text: the item as it is, behind
/// the adapter attribute where it is a trait or an implementation block.
pub open spec fn render_async(item: ItemView, capability: Capability) -> Seq<char> {
    match item {
        ItemView::Trait(_) | ItemView::Impl(_) => adapter(capability) + render_item(item),
        ItemView::Fn(_) | ItemView::Static(_) => render_item(item),
    }
}

proof fn lemma_cleared_members(s: Seq<MemberView>)
    ensures
        markers_in_members(strip_members(clear_members(s))) == 0,
        markers_in_members(s) == 0 ==> clear_members(s) == s,
    decreases s.len(),
{
    let cleared = clear_members(s);
    let r = strip_members(cleared);
    if s.len() > 0 {
        lemma_cleared_members(s.drop_last());
        assert(clear_members(s.drop_last()) =~= cleared.drop_last());
        assert(strip_members(cleared.drop_last()) =~= r.drop_last());
        assert(!is_marked(r.last()));
        if markers_in_members(s) == 0 {
            assert(clear_member(s.last()) == s.last());
            assert forall|i: int| 0 <= i < s.len() implies clear_member(s[i]) == s[i] by {
                if i < s.len() - 1 {
                    assert(clear_members(s.drop_last())[i] == s.drop_last()[i]);
                }
            }
        }
    }
    if markers_in_members(s) == 0 {
        assert(clear_members(s) =~= s);
    }
}

/// The synchronous form of an item carries no async marker and holds no
/// suspension expression and no async block. It has the shape of the item,
/// and an implementation block still names its trait.
pub proof fn lemma_sync_item_is_synchronous(item: ItemView)
    ensures
        async_markers(sync_item(item)) == 0,
        suspensions_in_item(sync_item(item)) == 0,
        sync_item(item).well_formed() == item.well_formed(),
        sync_item(item).attrs() == item.attrs(),
{
    lemma_strip_item_has_no_suspension(clear_markers(item));
    match item {
        ItemView::Trait(t) => {
            lemma_cleared_members(t.members);
        },
        ItemView::Impl(b) => {
            lemma_cleared_members(b.members);
        },
        ItemView::Fn(f) => {},
        ItemView::Static(s) => {},
    }
}

/// An item that carries no async marker and holds no suspension expression
/// and no async block is its own synchronous form, and so are its tokens.
pub proof fn lemma_sync_item_keeps_synchronous(item: ItemView)
    requires
        async_markers(item) == 0,
        suspensions_in_item(item) == 0,
    ensures
        sync_item(item) == item,
        render_item(sync_item(item)) == render_item(item),
{
    match item {
        ItemView::Trait(t) => {
            lemma_cleared_members(t.members);
        },
        ItemView::Impl(b) => {
            lemma_cleared_members(b.members);
        },
        ItemView::Fn(f) => {},
        ItemView::Static(s) => {},
    }
    assert(clear_markers(item) == item);
    lemma_strip_item_keeps_synchronous(item);
}

/// Making an item synchronous a second time changes nothing.
pub proof fn lemma_sync_item_idempotent(item: ItemView)
    ensures
        sync_item(sync_item(item)) == sync_item(item),
{
    lemma_sync_item_is_synchronous(item);
    lemma_sync_item_keeps_synchronous(sync_item(item));
}

/// A member that carries no async marker and holds no suspension expression
/// and no async block passes through unchanged, whatever the other members
/// are.
pub proof fn lemma_synchronous_member_passes_through(m: MemberView)
    requires
        !is_marked(m),
        suspensions_in_member(m) == 0,
    ensures
        strip_member(clear_member(m)) == m,
{
    match m {
        MemberView::Method(method) => {
            if let Some(body) = method.body {
                lemma_sync_stmts_keep_synchronous(body);
            }
        },
        MemberView::Other(parts) => {
            lemma_sync_parts_keep_synchronous(parts);
        },
    }
}

/// The async marker is all that a function's signature loses: the unsafe
/// qualifier, like everything else in front of the body, is kept.
pub proof fn lemma_function_keeps_its_qualifiers(f: FunctionView)
    ensures
        sync_item(ItemView::Fn(f)) matches ItemView::Fn(g) && g.sig == clear_marker(f.sig)
            && g.sig.is_unsafe == f.sig.is_unsafe && g.attrs == f.attrs && g.vis == f.vis,
{
}

/// The asynchronous form is the item as it stands, markers and suspension
/// expressions included; only the adapter attribute may be put in front.
pub proof fn lemma_async_form_keeps_the_item(item: ItemView, capability: Capability)
    ensures
        render_async(item, capability) == render_item(item) || render_async(item, capability)
            == adapter(capability) + render_item(item),
        item is Fn || item is Static ==> render_async(item, capability) == render_item(item),
{
}

/// The members of an item, where it is a trait or an implementation block;
/// none for the other shapes.
pub open spec fn members_of(item: ItemView) -> Seq<MemberView> {
    match item {
        ItemView::Trait(t) => t.members,
        ItemView::Impl(b) => b.members,
        _ => Seq::empty(),
    }
}

/// Each member is made synchronous by itself: what becomes of it depends on
/// no other member, whatever markers they carry. A method loses its marker
/// and keeps the rest of its signature; one without a marker keeps its
/// signature as it is.
pub proof fn lemma_members_are_independent(item: ItemView, i: int)
    requires
        0 <= i < members_of(item).len(),
    ensures
        members_of(sync_item(item)).len() == members_of(item).len(),
        members_of(sync_item(item))[i] == strip_member(clear_member(members_of(item)[i])),
        !is_marked(members_of(sync_item(item))[i]),
        members_of(item)[i] matches MemberView::Method(before) ==> members_of(
            sync_item(item),
        )[i] matches MemberView::Method(after) && after.sig == clear_marker(before.sig) && (
        !before.sig.is_async ==> after.sig == before.sig),
{
}

fn clear_in_members(members: &mut Vec<Member>)
    ensures
        members_view(final(members)@) == clear_members(members_view(old(members)@)),
{
    let mut i: usize = 0;
    while i < members.len()
        invariant
            i <= members.len(),
            members.len() == old(members).len(),
            forall|j: int| 0 <= j < i ==> members@[j]@ == clear_member(old(members)@[j]@),
            forall|j: int| i <= j < members.len() ==> members@[j] == old(members)@[j],
        decreases members.len() - i,
    {
        match &mut members[i] {
            Member::Method(method) => {
                if method.sig.is_async {
                    method.sig.is_async = false;
                }
            },
            Member::Other(_) => {},
        }
        i += 1;
    }
    assert(members_view(members@) =~= clear_members(members_view(old(members)@)));
}

fn members_are_unmarked(members: &Vec<Member>) -> (r: bool)
    ensures
        r == (markers_in_members(members_view(members@)) == 0),
{
    let ghost all = members_view(members@);
    let mut i: usize = 0;
    assert(all.take(0) =~= Seq::empty());
    while i < members.len()
        invariant
            i <= members.len(),
            all == members_view(members@),
            markers_in_members(all.take(i as int)) == 0,
        decreases members.len() - i,
    {
        assert(all.take(i + 1).drop_last() =~= all.take(i as int));
        assert(all.take(i + 1).last() == members@[i as int]@);
        let marked = match &members[i] {
            Member::Method(method) => method.sig.is_async,
            Member::Other(_) => false,
        };
        if marked {
            proof {
                lemma_markers_grow(all, i + 1);
            }
            return false;
        }
        i += 1;
    }
    assert(all.take(i as int) =~= all);
    true
}

/// The members carry at least as many async markers as the first `n` of them.
proof fn lemma_markers_grow(s: Seq<MemberView>, n: int)
    requires
        0 <= n <= s.len(),
    ensures
        markers_in_members(s.take(n)) <= markers_in_members(s),
    decreases s.len() - n,
{
    if n < s.len() {
        assert(s.take(n + 1).drop_last() =~= s.take(n));
        lemma_markers_grow(s, n + 1);
    } else {
        assert(s.take(n) =~= s);
    }
}

impl Item {
    /// Walks the item and says whether it carries no async marker.
    pub fn has_no_marker(&self) -> (r: bool)
        ensures
            r == (async_markers(self@) == 0),
    {
        match self {
            Item::Trait(decl) => members_are_unmarked(&decl.members),
            Item::Impl(block) => members_are_unmarked(&block.members),
            Item::Fn(function) => !function.sig.is_async,
            Item::Static(_) => true,
        }
    }

    /// Walks the item and says whether it is synchronous: no async marker on
    /// it, and no suspension expression and no async block in it.
    pub fn is_synchronous(&self) -> (r: bool)
        ensures
            r == (async_markers(self@) == 0 && suspensions_in_item(self@) == 0),
    {
        self.has_no_marker() && self.has_no_suspension()
    }
}

/// Clears the async marker of the function, or of each method.
pub fn clear_async_markers(item: &mut Item)
    ensures
        final(item)@ == clear_markers(old(item)@),
{
    match item {
        Item::Trait(decl) => clear_in_members(&mut decl.members),
        Item::Impl(block) => clear_in_members(&mut block.members),
        Item::Fn(function) => {
            if function.sig.is_async {
                function.sig.is_async = false;
            }
        },
        Item::Static(_) => {},
    }
}

/// Makes the item synchronous and returns its tokens.
pub fn convert_sync(input: &mut Item) -> (tokens: String)
    ensures
        final(input)@ == sync_item(old(input)@),
        tokens@ == render_item(sync_item(old(input)@)),
        async_markers(final(input)@) == 0,
        suspensions_in_item(final(input)@) == 0,
        async_markers(old(input)@) == 0 && suspensions_in_item(old(input)@) == 0 ==> final(input)@
            == old(input)@,
{
    proof {
        lemma_sync_item_is_synchronous(input@);
        if async_markers(input@) == 0 && suspensions_in_item(input@) == 0 {
            lemma_sync_item_keeps_synchronous(input@);
        }
    }
    clear_async_markers(input);
    let mut taken = Item::Static(
        crate::item::StaticItem { attrs: Vec::new(), tokens: String::new() },
    );
    std::mem::swap(input, &mut taken);
    let mut removal = AsyncAwaitRemoval;
    *input = removal.remove_async_await(taken);
    input.to_tokens()
}

/// Returns the tokens of the asynchronous form. The item itself is not
/// touched: its markers and its suspension expressions stay.
pub fn convert_async(input: &Item, capability: Capability) -> (tokens: String)
    ensures
        tokens@ == render_async(input@, capability),
{
    let mut out = String::new();
    match input {
        Item::Trait(_) | Item::Impl(_) => {
            match capability {
                Capability::Shared => out.append("#[async_trait::async_trait] "),
                Capability::Local => out.append("#[async_trait::async_trait(?Send)] "),
            }
        },
        Item::Fn(_) | Item::Static(_) => {},
    }
    assert(out@ =~= match input@ {
        ItemView::Trait(_) | ItemView::Impl(_) => adapter(capability),
        ItemView::Fn(_) | ItemView::Static(_) => Seq::empty(),
    });
    input.write_tokens(&mut out);
    assert(out@ =~= render_async(input@, capability));
    out
}

} // verus!
