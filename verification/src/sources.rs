use vstd::prelude::*;

verus! {

/// A remote artifact provider: a named source of tool binaries.
#[derive(Debug, Clone, Copy, PartialEq, Eq, Structural)]
#[non_exhaustive]
pub enum ArtifactProvider {
    Github,
}

/// The stable, lowercase ASCII key of an artifact provider, used as the
/// auth manifest map key and as a URL component.
pub open spec fn provider_key(p: ArtifactProvider) -> Seq<char> {
    match p {
        ArtifactProvider::Github => "github"@,
    }
}

impl ArtifactProvider {
    /// The provider's string key.
    pub fn as_str(&self) -> (r: &str)
        ensures
            r@ == provider_key(*self),
    {
        match self {
            ArtifactProvider::Github => "github",
        }
    }
}

} // verus!
