//! The configured services and the substitution of startup values in their paths.

use crate::template::{replace_token, resolve};
use vstd::prelude::*;

verus! {

/// The substitution pairs as the templates see them: each name and value by its characters.
pub open spec fn defines_view(defines: Seq<(String, String)>) -> Seq<(Seq<char>, Seq<char>)> {
    defines.map_values(|d: (String, String)| (d.0@, d.1@))
}

/// Applies the substitution pairs to `s`, one after the other in list order.
/// A pair rewrites the text that the pairs before it produced, so a value that
/// holds the token of a later name is rewritten by that later pair.
pub fn process_defines(s: &str, defines: &[(String, String)]) -> (path: String)
    ensures
        path@ == resolve(s@, defines_view(defines@)),
{
    let ghost subs = defines_view(defines@);
    let mut result = String::from_str(s);
    let mut i: usize = 0;
    while i < defines.len()
        invariant
            i <= defines.len(),
            subs == defines_view(defines@),
            result@ == resolve(s@, subs.take(i as int)),
        decreases defines.len() - i,
    {
        result = replace_token(result.as_str(), defines[i].0.as_str(), defines[i].1.as_str());
        assert(subs.take(i + 1).drop_last() =~= subs.take(i as int));
        i = i + 1;
    }
    assert(subs.take(i as int) =~= subs);
    result
}

/// One relay: where the real service listens, and where the relay listens in front of it.
#[derive(Clone, Debug, PartialEq, Eq)]
pub struct Service {
    /// Template of the raw-side path, the socket of the real service.
    pub src: String,
    /// Template of the isolated-side path, the socket that clients connect to.
    pub dst: String,
}

impl Service {
    /// The raw-side path with the substitutions applied.
    pub fn src_in(&self, defines: &[(String, String)]) -> (path: String)
        ensures
            path@ == resolve(self.src@, defines_view(defines@)),
    {
        process_defines(self.src.as_str(), defines)
    }

    /// The isolated-side path with the substitutions applied.
    pub fn dst_in(&self, defines: &[(String, String)]) -> (path: String)
        ensures
            path@ == resolve(self.dst@, defines_view(defines@)),
    {
        process_defines(self.dst.as_str(), defines)
    }
}

/// The services of one run, in the order in which they are started.
#[derive(Clone, Debug, PartialEq, Eq)]
pub struct Config {
    pub services: Vec<Service>,
}

/// Where the configuration is read from.
#[derive(Clone, Debug, PartialEq, Eq)]
pub enum ConfigSource {
    /// Standard input.
    Stdin,
    /// The file at this path.
    File(String),
}

impl ConfigSource {
    /// Tells what the configuration argument names: a lone `-` is standard
    /// input, anything else is the path of a file, taken as it is.
    pub fn from_arg(path: &str) -> (source: ConfigSource)
        ensures
            match source {
                ConfigSource::Stdin => path@ == seq!['-'],
                ConfigSource::File(name) => path@ != seq!['-'] && name@ == path@,
            },
    {
        if path.unicode_len() == 1 && path.get_char(0) == '-' {
            ConfigSource::Stdin
        } else {
            ConfigSource::File(String::from_str(path))
        }
    }
}

} // verus!
