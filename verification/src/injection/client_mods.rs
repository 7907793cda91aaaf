use crate::injection::inject::{opt_text, styles_or_empty, Injectable, InjectableView};
use vstd::prelude::*;

verus! {

/// A client mod: its script and, where it has one, its stylesheet, each an `http` link
/// or a local path.
pub struct ClientMod {
    pub script: String,
    pub styles: Option<String>,
}

/// What injecting a client mod works from: its script and its optional styles.
pub open spec fn mod_view(m: ClientMod) -> InjectableView {
    InjectableView { script: m.script@, styles: opt_text(m.styles) }
}

/// The client mods to inject, in the order they were added.
pub struct ClientMods {
    pub mods: Vec<ClientMod>,
}

impl ClientMods {
    pub fn new() -> (client_mods: Self)
        ensures
            client_mods.mods@ == Seq::<ClientMod>::empty(),
    {
        ClientMods { mods: Vec::new() }
    }

    /// Adds a mod after those already added.
    pub fn add_mod(&mut self, client_mod: ClientMod)
        ensures
            final(self).mods@ == old(self).mods@.push(client_mod),
    {
        self.mods.push(client_mod);
    }

    /// One injectable per mod, in the order the mods were added, each with the mod's
    /// script and styles.
    pub fn into_injectables(self) -> (injectables: Vec<Injectable>)
        ensures
            injectables@.len() == self.mods@.len(),
            forall|i: int|
                0 <= i < injectables@.len() ==> #[trigger] injectables@[i]@ == mod_view(
                    self.mods@[i],
                ),
        forall|i: int|
            0 <= i < injectables@.len() ==> {
                &&& (#[trigger] injectables@[i])@.script == self.mods@[i].script@
                &&& self.mods@[i].styles matches Some(t) ==> injectables@[i]@.styles == Some(t@)
                &&& self.mods@[i].styles is None ==> injectables@[i]@.styles is None
            },
    {
        let ghost mods = self.mods@;
        let mut injectables: Vec<Injectable> = Vec::new();
        for m in it: self.mods.into_iter()
            invariant
                it.seq() == mods,
                injectables@.len() == it.index(),
                forall|i: int|
                    0 <= i < injectables@.len() ==> #[trigger] injectables@[i]@ == mod_view(
                        mods[i],
                    ),
        {
            injectables.push(Injectable::new(m.script, m.styles));
        }
        injectables
    }
}

/// The injectables made from a list of mods give back each mod's script, and each
/// mod's styles, or the empty string for a mod without styles, in the mods' order.
pub proof fn lemma_injectables_give_back_mods(mods: Seq<ClientMod>, injectables: Seq<InjectableView>)
    requires
        injectables.len() == mods.len(),
        forall|i: int| 0 <= i < injectables.len() ==> #[trigger] injectables[i] == mod_view(mods[i]),
    ensures
        forall|i: int|
            0 <= i < injectables.len() ==> {
                &&& (#[trigger] injectables[i]).script == mods[i].script@
                &&& styles_or_empty(injectables[i].styles) == match mods[i].styles {
                    Some(s) => s@,
                    None => Seq::<char>::empty(),
                }
            },
{
}

} // verus!
