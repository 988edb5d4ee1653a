//! Wallet settings: the transaction method and the mixnet addresses.
use vstd::prelude::*;

verus! {

/// How transactions are built: the standard slate exchange or contracts.
#[derive(Clone, Copy, Debug, PartialEq, Eq, Structural, Hash)]
pub enum TxMethod {
    Legacy,
    Contracts,
}

/// The wallet settings screen shown.
#[derive(Clone, Copy, Debug, PartialEq, Eq, Structural)]
pub enum Mode {
    Wallet,
    Node,
    General,
}

/// The three mixnet addresses as typed on the wallet settings screen.
#[derive(Clone, Debug)]
pub struct StateContainer {
    pub mw_mixnet_address_1: String,
    pub mw_mixnet_address_2: String,
    pub mw_mixnet_address_3: String,
}

impl Default for StateContainer {
    /// No address typed.
    fn default() -> (s: StateContainer)
        ensures
            s.mw_mixnet_address_1@.len() == 0,
            s.mw_mixnet_address_2@.len() == 0,
            s.mw_mixnet_address_3@.len() == 0,
    {
        StateContainer {
            mw_mixnet_address_1: String::new(),
            mw_mixnet_address_2: String::new(),
            mw_mixnet_address_3: String::new(),
        }
    }
}

/// The texts of a list of strings.
pub open spec fn texts(v: Seq<String>) -> Seq<Seq<char>> {
    v.map_values(|s: String| s@)
}

/// The configured mixnet keys before a change: the configured ones, or
/// three empty keys when none are configured yet.
pub open spec fn keys_before_change(keys: Option<Vec<String>>) -> Seq<Seq<char>> {
    match keys {
        Some(v) => texts(v@),
        None => seq![seq![], seq![], seq![]],
    }
}

impl StateContainer {
    /// Takes a typed mixnet address (number `index`, counted from 0): the
    /// configuration gets three empty keys first when it has none, then the
    /// key at `index` becomes the address, and so does the typed field.
    pub fn change_mixnet_address(&mut self, keys: &mut Option<Vec<String>>, index: usize, value: String)
        requires
            index < 3,
            match *old(keys) {
                Some(v) => index < v@.len(),
                None => true,
            },
        ensures
            match *final(keys) {
                Some(v) => texts(v@) == keys_before_change(*old(keys)).update(index as int, value@),
                None => false,
            },
            index == 0 ==> final(self).mw_mixnet_address_1@ == value@,
            index == 1 ==> final(self).mw_mixnet_address_2@ == value@,
            index == 2 ==> final(self).mw_mixnet_address_3@ == value@,
            index != 0 ==> final(self).mw_mixnet_address_1 == old(self).mw_mixnet_address_1,
            index != 1 ==> final(self).mw_mixnet_address_2 == old(self).mw_mixnet_address_2,
            index != 2 ==> final(self).mw_mixnet_address_3 == old(self).mw_mixnet_address_3,
    {
        let mut v: Vec<String> = match keys.take() {
            Some(v) => v,
            None => {
                let mut fresh: Vec<String> = Vec::new();
                fresh.push(String::new());
                fresh.push(String::new());
                fresh.push(String::new());
                assert(texts(fresh@) =~= seq![seq![], seq![], seq![]]);
                fresh
            },
        };
        let ghost before = texts(v@);
        assert(before == keys_before_change(*old(keys)));
        v.set(index, value.clone());
        assert(texts(v@) =~= before.update(index as int, value@));
        *keys = Some(v);
        if index == 0 {
            self.mw_mixnet_address_1 = value;
        } else if index == 1 {
            self.mw_mixnet_address_2 = value;
        } else {
            self.mw_mixnet_address_3 = value;
        }
    }
}

} // verus!
