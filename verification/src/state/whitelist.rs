//! The hook programs that pools trust: a set of at most 32 keys, kept in the order in
//! which they were admitted.
use crate::error::{committed, AmmError};
use crate::pubkey::{default_key, default_keys, same_key, zero_key};
use anchor_lang::prelude::Pubkey;
use vstd::prelude::*;

verus! {

/// The number of hook programs that a whitelist can hold.
pub const MAX_WHITELISTED_HOOKS: usize = 32;

/// `index` is where `id` first occurs in `hooks`.
pub open spec fn is_first_index_of(hooks: Seq<Pubkey>, id: Pubkey, index: int) -> bool {
    &&& 0 <= index < hooks.len()
    &&& hooks[index] == id
    &&& forall|j: int| 0 <= j < index ==> hooks[j] != id
}

/// Where `id` first occurs in `hooks`, if it occurs at all.
pub open spec fn first_index_of(hooks: Seq<Pubkey>, id: Pubkey) -> int {
    choose|index: int| is_first_index_of(hooks, id, index)
}

/// The outcome of admitting `id` to the whitelisted `hooks`.
pub open spec fn add_hook_outcome(hooks: Seq<Pubkey>, id: Pubkey) -> Result<Seq<Pubkey>, AmmError> {
    if hooks.len() >= MAX_WHITELISTED_HOOKS {
        Err(AmmError::WhitelistFull)
    } else if hooks.contains(id) {
        Err(AmmError::HookAlreadyWhitelisted)
    } else {
        Ok(hooks.push(id))
    }
}

/// The outcome of striking `id` from the whitelisted `hooks`.
pub open spec fn remove_hook_outcome(hooks: Seq<Pubkey>, id: Pubkey) -> Result<
    Seq<Pubkey>,
    AmmError,
> {
    if !hooks.contains(id) {
        Err(AmmError::HookNotWhitelisted)
    } else {
        Ok(hooks.remove(first_index_of(hooks, id)))
    }
}

/// The registry of trusted hook programs. Only the first `hook_count` slots of
/// `whitelisted_hooks` are meaningful: they are the view of the registry.
#[derive(Clone, Copy, Debug)]
pub struct TransferHookWhitelist {
    /// Who may change the whitelist.
    pub authority: Pubkey,
    /// The number of slots in use.
    pub hook_count: u32,
    /// Unused.
    pub reserved: u32,
    /// The whitelisted hook programs, oldest first, followed by unused slots.
    pub whitelisted_hooks: [Pubkey; MAX_WHITELISTED_HOOKS],
    /// Unused.
    pub padding: [u64; 8],
}

impl View for TransferHookWhitelist {
    type V = Seq<Pubkey>;

    /// The whitelisted hook programs, oldest first.
    open spec fn view(&self) -> Seq<Pubkey> {
        self.whitelisted_hooks@.take(self.hook_count as int)
    }
}

impl TransferHookWhitelist {
    /// The count is within capacity.
    pub open spec fn bounded(&self) -> bool {
        self.hook_count <= MAX_WHITELISTED_HOOKS
    }

    /// The count is within capacity and no hook program is listed twice.
    pub open spec fn wf(&self) -> bool {
        self.bounded() && self@.no_duplicates()
    }

    /// Everything but the listed hook programs is as in `other`.
    pub open spec fn same_header(&self, other: &TransferHookWhitelist) -> bool {
        &&& self.authority == other.authority
        &&& self.reserved == other.reserved
        &&& self.padding == other.padding
    }

    /// Empties the whitelist and hands it to `authority`.
    pub fn initialize(&mut self, authority: Pubkey) -> (result: Result<(), AmmError>)
        ensures
            result is Ok,
            final(self)@ == Seq::<Pubkey>::empty(),
            final(self).authority == authority,
            final(self).hook_count == 0,
            final(self).reserved == 0,
            forall|i: int|
                0 <= i < MAX_WHITELISTED_HOOKS ==> final(self).whitelisted_hooks[i] == zero_key(),
            forall|i: int| 0 <= i < 8 ==> final(self).padding[i] == 0,
            final(self).wf(),
    {
        self.authority = authority;
        self.hook_count = 0;
        self.reserved = 0;
        self.whitelisted_hooks = default_keys();
        self.padding = [0u64;8];
        Ok(())
    }

    /// Tells whether `hook_program_id` is whitelisted.
    pub fn is_hook_whitelisted(&self, hook_program_id: &Pubkey) -> (found: bool)
        requires
            self.bounded(),
        ensures
            found == self@.contains(*hook_program_id),
    {
        let count: usize = self.hook_count as usize;
        let mut i: usize = 0;
        while i < count
            invariant
                i <= count == self.hook_count <= MAX_WHITELISTED_HOOKS,
                forall|j: int| 0 <= j < i ==> self@[j] != *hook_program_id,
            decreases count - i,
        {
            if same_key(&self.whitelisted_hooks[i], hook_program_id) {
                assert(self@[i as int] == *hook_program_id);
                return true;
            }
            i += 1;
        }
        false
    }

    /// Admits `hook_program_id` behind the hook programs already listed.
    pub fn add_hook(&mut self, hook_program_id: Pubkey) -> (result: Result<(), AmmError>)
        requires
            old(self).bounded(),
        ensures
            committed(
                old(self)@,
                final(self)@,
                result,
                add_hook_outcome(old(self)@, hook_program_id),
            ),
            result is Err ==> *final(self) == *old(self),
            final(self).same_header(old(self)),
            forall|k: int|
                old(self).hook_count < k < MAX_WHITELISTED_HOOKS ==> final(self).whitelisted_hooks[k]
                    == old(self).whitelisted_hooks[k],
            final(self).bounded(),
            old(self).wf() ==> final(self).wf(),
    {
        if self.hook_count as usize >= MAX_WHITELISTED_HOOKS {
            return Err(AmmError::WhitelistFull);
        }
        if self.is_hook_whitelisted(&hook_program_id) {
            return Err(AmmError::HookAlreadyWhitelisted);
        }
        self.whitelisted_hooks[self.hook_count as usize] = hook_program_id;
        self.hook_count = self.hook_count + 1;
        assert(self@ =~= old(self)@.push(hook_program_id));
        Ok(())
    }

    /// Strikes `hook_program_id` from the whitelist. The hook programs behind it move
    /// up by one slot, so those that remain keep their order, and the slot that this
    /// frees is cleared.
    pub fn remove_hook(&mut self, hook_program_id: &Pubkey) -> (result: Result<(), AmmError>)
        requires
            old(self).bounded(),
        ensures
            committed(
                old(self)@,
                final(self)@,
                result,
                remove_hook_outcome(old(self)@, *hook_program_id),
            ),
            result is Err ==> *final(self) == *old(self),
            final(self).same_header(old(self)),
            result is Ok ==> final(self).whitelisted_hooks[old(self).hook_count - 1] == zero_key(),
            forall|k: int|
                old(self).hook_count <= k < MAX_WHITELISTED_HOOKS ==> final(self).whitelisted_hooks[k]
                    == old(self).whitelisted_hooks[k],
            final(self).bounded(),
            old(self).wf() ==> final(self).wf(),
    {
        let count: usize = self.hook_count as usize;
        let mut i: usize = 0;
        while i < count
            invariant
                i <= count == self.hook_count <= MAX_WHITELISTED_HOOKS,
                *self == *old(self),
                forall|j: int| 0 <= j < i ==> self@[j] != *hook_program_id,
            decreases count - i,
        {
            if same_key(&self.whitelisted_hooks[i], hook_program_id) {
                assert(is_first_index_of(self@, *hook_program_id, i as int));
                let mut j: usize = i;
                while j < count - 1
                    invariant
                        i <= j < count == self.hook_count <= MAX_WHITELISTED_HOOKS,
                        self.hook_count == old(self).hook_count,
                        self.same_header(old(self)),
                        forall|k: int|
                            0 <= k < MAX_WHITELISTED_HOOKS ==> self.whitelisted_hooks[k] == if i
                                <= k < j {
                                old(self).whitelisted_hooks[k + 1]
                            } else {
                                old(self).whitelisted_hooks[k]
                            },
                    decreases count - j,
                {
                    self.whitelisted_hooks[j] = self.whitelisted_hooks[j + 1];
                    j += 1;
                }
                self.whitelisted_hooks[count - 1] = default_key();
                self.hook_count = self.hook_count - 1;
                proof {
                    lemma_first_index_is(old(self)@, *hook_program_id, i as int);
                    assert(self@ =~= old(self)@.remove(i as int));
                    if old(self).wf() {
                        old(self)@.remove_ensures(i as int);
                    }
                }
                return Ok(());
            }
            i += 1;
        }
        Err(AmmError::HookNotWhitelisted)
    }
}

impl Default for TransferHookWhitelist {
    /// An empty whitelist under the key of zero bytes.
    fn default() -> (whitelist: TransferHookWhitelist)
        ensures
            whitelist@ == Seq::<Pubkey>::empty(),
            whitelist.authority == zero_key(),
            whitelist.hook_count == 0,
            whitelist.reserved == 0,
            forall|i: int|
                0 <= i < MAX_WHITELISTED_HOOKS ==> whitelist.whitelisted_hooks[i] == zero_key(),
            forall|i: int| 0 <= i < 8 ==> whitelist.padding[i] == 0,
            whitelist.wf(),
    {
        TransferHookWhitelist {
            authority: default_key(),
            hook_count: 0,
            reserved: 0,
            whitelisted_hooks: default_keys(),
            padding: [0u64;8],
        }
    }
}

/// An index that meets the definition of the first occurrence is the first occurrence.
pub proof fn lemma_first_index_is(hooks: Seq<Pubkey>, id: Pubkey, index: int)
    requires
        is_first_index_of(hooks, id, index),
    ensures
        first_index_of(hooks, id) == index,
{
    let chosen = first_index_of(hooks, id);
    assert(is_first_index_of(hooks, id, chosen));
}

/// A hook program that has just been admitted is whitelisted.
pub proof fn law_added_hook_is_whitelisted(hooks: Seq<Pubkey>, id: Pubkey)
    requires
        add_hook_outcome(hooks, id) is Ok,
    ensures
        add_hook_outcome(hooks, id)->Ok_0.contains(id),
{
    let next = hooks.push(id);
    assert(next[hooks.len() as int] == id);
}

/// A hook program cannot be admitted twice in a row: the second attempt fails and,
/// unless the first filled the last slot, reports the hook program as whitelisted.
pub proof fn law_second_add_fails(hooks: Seq<Pubkey>, id: Pubkey)
    requires
        add_hook_outcome(hooks, id) is Ok,
    ensures
        add_hook_outcome(add_hook_outcome(hooks, id)->Ok_0, id) is Err,
        hooks.len() + 1 < MAX_WHITELISTED_HOOKS ==> add_hook_outcome(
            add_hook_outcome(hooks, id)->Ok_0,
            id,
        ) == Err::<Seq<Pubkey>, AmmError>(AmmError::HookAlreadyWhitelisted),
{
    law_added_hook_is_whitelisted(hooks, id);
}

/// A hook program that has just been struck is no longer whitelisted.
pub proof fn law_removed_hook_is_not_whitelisted(hooks: Seq<Pubkey>, id: Pubkey)
    requires
        hooks.no_duplicates(),
        remove_hook_outcome(hooks, id) is Ok,
    ensures
        !remove_hook_outcome(hooks, id)->Ok_0.contains(id),
{
    let index = first_index_of(hooks, id);
    let witness = choose|i: int| 0 <= i < hooks.len() && hooks[i] == id;
    lemma_first_index_exists(hooks, id, witness);
    let next = hooks.remove(index);
    assert forall|k: int| 0 <= k < next.len() implies next[k] != id by {
        if k < index {
            assert(next[k] == hooks[k]);
        } else {
            assert(next[k] == hooks[k + 1]);
        }
    }
}

/// Admitting and striking keep the whitelist within its capacity and free of
/// duplicates.
pub proof fn law_whitelist_stays_well_formed(hooks: Seq<Pubkey>, id: Pubkey)
    requires
        hooks.len() <= MAX_WHITELISTED_HOOKS,
        hooks.no_duplicates(),
    ensures
        add_hook_outcome(hooks, id) matches Ok(next) ==> next.len() == hooks.len() + 1
            && next.len() <= MAX_WHITELISTED_HOOKS && next.no_duplicates(),
        remove_hook_outcome(hooks, id) matches Ok(next) ==> next.len() + 1 == hooks.len()
            && next.no_duplicates(),
{
    if remove_hook_outcome(hooks, id) is Ok {
        let witness = choose|i: int| 0 <= i < hooks.len() && hooks[i] == id;
        lemma_first_index_exists(hooks, id, witness);
        hooks.remove_ensures(first_index_of(hooks, id));
    }
}

/// Striking a hook program takes out its slot and nothing else: every other hook
/// program stays, and stays in the order in which it stood.
pub proof fn law_remove_keeps_order(hooks: Seq<Pubkey>, id: Pubkey)
    requires
        remove_hook_outcome(hooks, id) is Ok,
    ensures
        ({
            let next = remove_hook_outcome(hooks, id)->Ok_0;
            let index = first_index_of(hooks, id);
            &&& is_first_index_of(hooks, id, index)
            &&& next.len() + 1 == hooks.len()
            &&& forall|k: int| 0 <= k < index ==> next[k] == hooks[k]
            &&& forall|k: int| index <= k < next.len() ==> next[k] == hooks[k + 1]
        }),
{
    let witness = choose|i: int| 0 <= i < hooks.len() && hooks[i] == id;
    lemma_first_index_exists(hooks, id, witness);
}

/// A key that occurs somewhere has a first occurrence.
pub proof fn lemma_first_index_exists(hooks: Seq<Pubkey>, id: Pubkey, index: int)
    requires
        0 <= index < hooks.len(),
        hooks[index] == id,
    ensures
        is_first_index_of(hooks, id, first_index_of(hooks, id)),
    decreases index,
{
    if exists|j: int| 0 <= j < index && hooks[j] == id {
        let j = choose|j: int| 0 <= j < index && hooks[j] == id;
        lemma_first_index_exists(hooks, id, j);
    } else {
        assert(is_first_index_of(hooks, id, index));
    }
}

} // verus!
