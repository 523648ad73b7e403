//! Symbol registry: maps an upper-cased token symbol to the account that
//! issued it; a symbol is registered once.
use vstd::prelude::*;
use crate::law::Address;

verus! {

/// The upper-case form of a string, as `str::to_uppercase` computes it.
pub uninterp spec fn upper_of(s: Seq<char>) -> Seq<char>;

/// Relies on `str::to_uppercase`: the result depends on the characters
/// alone, and the empty string stays empty.
#[verifier::external_body]
fn to_upper(s: &String) -> (r: String)
    ensures
        r@ == upper_of(s@),
        s@.len() == 0 ==> r@.len() == 0,
{
    s.to_uppercase()
}

/// One registration: a symbol key and its account.
pub struct TokenEntry {
    pub symbol: String,
    pub account: Address,
}

/// Why a registration was refused.
#[derive(Clone, Copy, Debug, PartialEq, Eq, Structural)]
pub enum FactoryError {
    /// The symbol, upper-cased, is already registered.
    SymbolUsed,
}

/// The registry of token symbols.
pub struct Factory {
    pub registry: Vec<TokenEntry>,
}

/// The account registered under `key` in `entries`; the latest entry wins.
pub open spec fn lookup(entries: Seq<TokenEntry>, key: Seq<char>) -> Option<Seq<char>>
    decreases entries.len(),
{
    if entries.len() == 0 {
        None
    } else if entries.last().symbol@ == key {
        Some(entries.last().account@)
    } else {
        lookup(entries.drop_last(), key)
    }
}

impl Factory {
    /// The account registered under `key`, an upper-case symbol.
    pub open spec fn token_of(&self, key: Seq<char>) -> Option<Seq<char>> {
        lookup(self.registry@, key)
    }

    /// An empty registry.
    pub fn new() -> (r: Factory)
        ensures
            forall|k: Seq<char>| #[trigger] r.token_of(k) is None,
    {
        Factory { registry: Vec::new() }
    }

    /// Finds the account under an already upper-cased key.
    pub fn find_key(&self, key: &String) -> (r: Option<Address>)
        ensures
            r is None <==> self.token_of(key@) is None,
            r is Some ==> self.token_of(key@) == Some(r.unwrap()@),
    {
        let mut i: usize = self.registry.len();
        assert(self.registry@.subrange(0, i as int) =~= self.registry@);
        while i > 0
            invariant
                i <= self.registry@.len(),
                lookup(self.registry@.subrange(0, i as int), key@) == lookup(self.registry@, key@),
            decreases i,
        {
            assert(self.registry@.subrange(0, i as int).drop_last() =~= self.registry@.subrange(
                0,
                i - 1,
            ));
            let e = &self.registry[i - 1];
            if e.symbol == *key {
                return Some(e.account.clone());
            }
            i = i - 1;
        }
        None
    }

    /// Registers `account` under `symbol`, upper-cased; a symbol already
    /// registered is refused and the registry left as it was.
    pub fn create_token(&mut self, symbol: String, account: Address) -> (r: Result<(), FactoryError>)
        ensures
            old(self).token_of(upper_of(symbol@)) is Some ==> r == Err::<(), FactoryError>(
                FactoryError::SymbolUsed,
            ) && *final(self) == *old(self),
            old(self).token_of(upper_of(symbol@)) is None ==> r is Ok && forall|k: Seq<char>|
                #[trigger] final(self).token_of(k) == if k == upper_of(symbol@) {
                    Some(account@)
                } else {
                    old(self).token_of(k)
                },
    {
        let key = to_upper(&symbol);
        if self.find_key(&key).is_some() {
            return Err(FactoryError::SymbolUsed);
        }
        let ghost before = self.registry@;
        self.registry.push(TokenEntry { symbol: key, account });
        assert(self.registry@.drop_last() =~= before);
        Ok(())
    }

    /// The account registered under `symbol`, upper-cased.
    pub fn get_token(&self, symbol: String) -> (r: Option<Address>)
        ensures
            r is None <==> self.token_of(upper_of(symbol@)) is None,
            r is Some ==> self.token_of(upper_of(symbol@)) == Some(r.unwrap()@),
    {
        let key = to_upper(&symbol);
        self.find_key(&key)
    }
}

} // verus!
