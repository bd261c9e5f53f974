//! The upstream services behind the proxy.

use vstd::prelude::*;

pub mod kimi;

verus! {

#[derive(Clone, Copy, Debug, PartialEq, Eq, Structural)]
pub enum Provider {
    Codex,
    Kimi,
}

impl Provider {
    pub open spec fn name_v(self) -> Seq<char> {
        match self {
            Provider::Codex => "codex"@,
            Provider::Kimi => "kimi"@,
        }
    }

    pub open spec fn owner_v(self) -> Seq<char> {
        match self {
            Provider::Codex => "openai-codex"@,
            Provider::Kimi => "kimi"@,
        }
    }

    pub fn as_str(self) -> (r: &'static str)
        ensures
            r@ == self.name_v(),
    {
        match self {
            Provider::Codex => "codex",
            Provider::Kimi => "kimi",
        }
    }

    /// Who is named as the owner of the provider's models.
    pub fn owned_by(self) -> (r: &'static str)
        ensures
            r@ == self.owner_v(),
    {
        match self {
            Provider::Codex => "openai-codex",
            Provider::Kimi => "kimi",
        }
    }
}

} // verus!
