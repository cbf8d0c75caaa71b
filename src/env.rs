use vstd::prelude::*;

verus! {

/// The deployment a run is aimed at.
#[derive(Clone, Copy, PartialEq, Eq, Structural, Debug)]
pub enum EnvTypes {
    Sit,
    Uat,
    Prd,
    Wst,
}

impl EnvTypes {
    /// The token that every endpoint address of this deployment carries.
    pub open spec fn token(self) -> Seq<char> {
        match self {
            EnvTypes::Sit => "sit"@,
            EnvTypes::Uat => "uat"@,
            EnvTypes::Prd => "prd"@,
            EnvTypes::Wst => "wst"@,
        }
    }

    pub fn as_str(&self) -> (r: &'static str)
        ensures
            r@ == self.token(),
    {
        match self {
            EnvTypes::Sit => "sit",
            EnvTypes::Uat => "uat",
            EnvTypes::Prd => "prd",
            EnvTypes::Wst => "wst",
        }
    }

    /// The deployment a set of command-line switches selects. Switches are
    /// applied in the order sit, uat, prd, wst, so a later one wins; with no
    /// switch the run goes to production.
    pub open spec fn selected(sit: bool, wst: bool, uat: bool, prd: bool) -> EnvTypes {
        if wst {
            EnvTypes::Wst
        } else if prd {
            EnvTypes::Prd
        } else if uat {
            EnvTypes::Uat
        } else if sit {
            EnvTypes::Sit
        } else {
            EnvTypes::Prd
        }
    }

    pub fn from_flags(sit: bool, wst: bool, uat: bool, prd: bool) -> (r: EnvTypes)
        ensures
            r == EnvTypes::selected(sit, wst, uat, prd),
    {
        let mut env = EnvTypes::Prd;
        if sit {
            env = EnvTypes::Sit;
        }
        if uat {
            env = EnvTypes::Uat;
        }
        if prd {
            env = EnvTypes::Prd;
        }
        if wst {
            env = EnvTypes::Wst;
        }
        env
    }
}

/// Whatever switches are given, the selected deployment's token is one of
/// the four fixed tokens, distinct deployments have distinct tokens, and with
/// no switch at all the production token is chosen.
pub proof fn lemma_resolver_tokens(sit: bool, wst: bool, uat: bool, prd: bool)
    ensures
        ({
            let t = EnvTypes::selected(sit, wst, uat, prd).token();
            t == "sit"@ || t == "uat"@ || t == "prd"@ || t == "wst"@
        }),
        forall|a: EnvTypes, b: EnvTypes| a.token() == b.token() ==> a == b,
        EnvTypes::selected(false, false, false, false).token() == "prd"@,
{
    reveal_strlit("sit");
    reveal_strlit("uat");
    reveal_strlit("prd");
    reveal_strlit("wst");
    assert forall|a: EnvTypes, b: EnvTypes| a.token() == b.token() implies a == b by {
        if a != b {
            assert(a.token()[0] != b.token()[0] || a.token()[1] != b.token()[1]);
        }
    }
}

} // verus!
