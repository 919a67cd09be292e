//! Which key bindings apply: a view advertises flags, and a binding applies where its flag is.

use vstd::prelude::*;

use crate::card::texts_of;

verus! {

/// The flags that a view advertises while it has the focus.
#[derive(Clone, Debug)]
pub struct KeymapContext {
    flags: Vec<String>,
}

impl View for KeymapContext {
    type V = Set<Seq<char>>;

    closed spec fn view(&self) -> Set<Seq<char>> {
        texts_of(self.flags@).to_set()
    }
}

impl KeymapContext {
    /// A context without flags.
    pub fn new() -> (r: Self)
        ensures
            r@ == Set::<Seq<char>>::empty(),
    {
        let r = KeymapContext { flags: Vec::new() };
        assert(r@ =~= Set::<Seq<char>>::empty());
        r
    }

    /// Whether `flag` is advertised.
    pub fn contains(&self, flag: &str) -> (r: bool)
        ensures
            r == self@.contains(flag@),
    {
        let wanted: String = flag.to_string();
        let mut i: usize = 0;
        while i < self.flags.len()
            invariant
                i <= self.flags@.len(),
                wanted@ == flag@,
                forall|k: int| 0 <= k < i ==> (#[trigger] self.flags@[k])@ != flag@,
            decreases self.flags@.len() - i,
        {
            if self.flags[i] == wanted {
                assert(texts_of(self.flags@)[i as int] == flag@);
                return true;
            }
            i = i + 1;
        }
        assert(!texts_of(self.flags@).contains(flag@));
        false
    }

    /// Advertises `flag`.
    pub fn insert(&mut self, flag: &str)
        ensures
            final(self)@ == old(self)@.insert(flag@),
    {
        if self.contains(flag) {
            assert(self@ =~= old(self)@.insert(flag@));
        } else {
            self.flags.push(flag.to_string());
            proof {
                let before = texts_of(old(self).flags@);
                let after = texts_of(self.flags@);
                assert(after =~= before.push(flag@));
                assert forall|text: Seq<char>| #[trigger] after.to_set().contains(text)
                    == before.to_set().insert(flag@).contains(text) by {
                    if before.contains(text) {
                        let k = choose|k: int| 0 <= k < before.len() && before[k] == text;
                        assert(after[k] == text);
                    }
                    if text == flag@ {
                        assert(after[before.len() as int] == text);
                    }
                }
                assert(after.to_set() =~= before.to_set().insert(flag@));
            }
        }
    }
}

/// A key that triggers `action` wherever `flag` is advertised.
#[derive(Clone, Debug)]
pub struct FixedBinding<A> {
    pub keystroke: String,
    pub action: A,
    pub flag: String,
}

impl<A> FixedBinding<A> {
    /// Whether the binding applies in `context`.
    pub fn applies_in(&self, context: &KeymapContext) -> (r: bool)
        ensures
            r == context@.contains(self.flag@),
    {
        context.contains(self.flag.as_str())
    }
}

/// The flags of a picker: those in `default_flags`, and `collapsed` while its list is closed.
pub open spec fn picker_flags(
    default_flags: Set<Seq<char>>,
    collapsed: Seq<char>,
    is_expanded: bool,
) -> Set<Seq<char>> {
    if is_expanded {
        default_flags
    } else {
        default_flags.insert(collapsed)
    }
}

/// The context of a picker: the flags that every view has, and `collapsed` while its list is
/// closed. While the list is open its filter has the focus, and keys must reach the filter.
pub fn picker_context(
    default_context: KeymapContext,
    collapsed: &str,
    is_expanded: bool,
) -> (r: KeymapContext)
    ensures
        r@ == picker_flags(default_context@, collapsed@, is_expanded),
{
    let mut context = default_context;
    if !is_expanded {
        context.insert(collapsed);
    }
    context
}

} // verus!
