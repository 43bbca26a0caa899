use vstd::prelude::*;

verus! {

/// Name of the context that is always there.
pub const DEFAULT_CONTEXT: &'static str = "default";

/// Name of the endpoint a default context talks to.
pub const DEFAULT_ENDPOINT: &'static str = "Nanocl";

/// Address of the local daemon.
pub const DEFAULT_HOST: &'static str = "unix:///run/nanocl/nanocl.sock";

/// Description of the default context.
pub const DEFAULT_DESCRIPTION: &'static str = "Default context based on the local daemon";

#[derive(Debug, Clone, PartialEq, Eq)]
pub struct ContextMetaData {
    pub description: String,
}

#[derive(Debug, Clone, PartialEq, Eq)]
pub struct ContextEndpoint {
    pub host: String,
}

/// A client configuration for one cluster: its name, a description and the
/// endpoints it reaches, by name.
#[derive(Debug, Clone, PartialEq, Eq)]
pub struct Context {
    pub name: String,
    pub meta_data: ContextMetaData,
    pub endpoints: Vec<(String, ContextEndpoint)>,
}

/// The default context: the local daemon's socket under the default name.
pub open spec fn is_default_context(c: Context) -> bool {
    &&& c.name@ == DEFAULT_CONTEXT@
    &&& c.meta_data.description@ == DEFAULT_DESCRIPTION@
    &&& c.endpoints@.len() == 1
    &&& c.endpoints@[0].0@ == DEFAULT_ENDPOINT@
    &&& c.endpoints@[0].1.host@ == DEFAULT_HOST@
}

impl Default for Context {
    fn default() -> (r: Self)
        ensures
            is_default_context(r),
    {
        let mut endpoints: Vec<(String, ContextEndpoint)> = Vec::new();
        endpoints.push((DEFAULT_ENDPOINT.to_owned(), ContextEndpoint { host: DEFAULT_HOST.to_owned() }));
        Context {
            name: DEFAULT_CONTEXT.to_owned(),
            meta_data: ContextMetaData { description: DEFAULT_DESCRIPTION.to_owned() },
            endpoints,
        }
    }
}

impl Context {
    pub fn new() -> (r: Self)
        ensures
            is_default_context(r),
    {
        Self::default()
    }
}

} // verus!
