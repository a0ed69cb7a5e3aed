use vstd::prelude::*;
use vstd::string::StringExecFns;

verus! {

/// A source whose downstream web cache is told to revalidate when its data
/// changes.
#[derive(Clone, Copy, Debug, PartialEq, Eq, Structural)]
pub enum Service {
    Strava,
    Steam,
    Github,
}

pub const REVALIDATE_PREFIX: &'static str = "https://beta.mattglei.ch/revalidate/";

pub const STRAVA_NAME: &'static str = "strava";

pub const STEAM_NAME: &'static str = "steam";

pub const GITHUB_NAME: &'static str = "github";

impl Service {
    pub open spec fn spec_name(self) -> Seq<char> {
        match self {
            Service::Strava => STRAVA_NAME@,
            Service::Steam => STEAM_NAME@,
            Service::Github => GITHUB_NAME@,
        }
    }

    /// The name that identifies the source downstream.
    pub fn name(&self) -> (r: &'static str)
        ensures
            r@ == self.spec_name(),
    {
        match self {
            Service::Strava => STRAVA_NAME,
            Service::Steam => STEAM_NAME,
            Service::Github => GITHUB_NAME,
        }
    }
}

pub open spec fn revalidate_url_of(service: Service) -> Seq<char> {
    REVALIDATE_PREFIX@ + service.spec_name()
}

/// Where the revalidation call for `service` is sent.
pub fn revalidate_url(service: Service) -> (r: String)
    ensures
        r@ == revalidate_url_of(service),
{
    String::from_str(REVALIDATE_PREFIX).concat(service.name())
}

} // verus!
