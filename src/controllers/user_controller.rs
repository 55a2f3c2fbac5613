use vstd::prelude::*;

verus! {

/// The tokens revoked by logging out.
pub struct TokenBlack {
    black: Vec<String>,
}

impl View for TokenBlack {
    type V = Set<Seq<char>>;

    closed spec fn view(&self) -> Set<Seq<char>> {
        self.black@.map_values(|t: String| t@).to_set()
    }
}

impl TokenBlack {
    /// No token revoked.
    pub fn new() -> (r: TokenBlack)
        ensures
            r@ == Set::<Seq<char>>::empty(),
    {
        let r = TokenBlack { black: Vec::new() };
        assert(r@ =~= Set::<Seq<char>>::empty());
        r
    }

    /// Revokes `token`.
    pub fn add(&mut self, token: String)
        ensures
            final(self)@ == old(self)@.insert(token@),
    {
        let ghost before = self.black@;
        self.black.push(token);
        assert(self.black@.map_values(|t: String| t@) =~= before.map_values(|t: String| t@).push(token@));
        proof {
            before.map_values(|t: String| t@).lemma_push_to_set_commute(token@);
        }
    }

    /// Whether `token` was revoked.
    pub fn contains(&self, token: &String) -> (r: bool)
        ensures
            r == self@.contains(token@),
    {
        let mut i: usize = 0;
        while i < self.black.len()
            invariant
                i <= self.black@.len(),
                forall|j: int| 0 <= j < i ==> self.black@[j]@ != token@,
            decreases self.black@.len() - i,
        {
            if self.black[i] == *token {
                assert(self.black@.map_values(|t: String| t@)[i as int] == token@);
                return true;
            }
            i = i + 1;
        }
        assert(!self.black@.map_values(|t: String| t@).contains(token@));
        false
    }
}

} // verus!
