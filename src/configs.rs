//! Configuration resolution: built-in defaults, then environment overrides,
//! then explicit overrides.
use vstd::prelude::*;

verus! {

/// Where webhook templates are looked up unless configured otherwise.
pub const DEFAULT_INVENTORY_PATH: &'static str = "./inventory/";

/// The `User-Agent` sent unless configured otherwise.
pub const DEFAULT_USER_AGENT: &'static str = "webhook_cli/0.1.0";

/// A resolved configuration, as plain values.
pub struct ConfigsModel {
    pub inventory_path: Seq<char>,
    pub user_agent: Seq<char>,
    pub ssl_verify: bool,
}

/// A partial configuration: the fields that are set.
pub struct OverridesModel {
    pub inventory_path: Option<Seq<char>>,
    pub user_agent: Option<Seq<char>>,
    pub ssl_verify: Option<bool>,
}

/// The settings in force when nothing overrides them.
pub open spec fn defaults() -> ConfigsModel {
    ConfigsModel {
        inventory_path: DEFAULT_INVENTORY_PATH@,
        user_agent: DEFAULT_USER_AGENT@,
        ssl_verify: true,
    }
}

/// The value of `top` where it is set, else `base`.
pub open spec fn or_else<T>(top: Option<T>, base: T) -> T {
    match top {
        Some(v) => v,
        None => base,
    }
}

/// `top` laid over `base`, field by field: a field set in `top` wins.
pub open spec fn layered(base: OverridesModel, top: OverridesModel) -> OverridesModel {
    OverridesModel {
        inventory_path: if top.inventory_path is Some { top.inventory_path } else { base.inventory_path },
        user_agent: if top.user_agent is Some { top.user_agent } else { base.user_agent },
        ssl_verify: if top.ssl_verify is Some { top.ssl_verify } else { base.ssl_verify },
    }
}

/// The configuration that defaults, environment overrides `env` and explicit
/// overrides `explicit` resolve to.
pub open spec fn resolve(env: OverridesModel, explicit: OverridesModel) -> ConfigsModel {
    ConfigsModel {
        inventory_path: or_else(explicit.inventory_path, or_else(env.inventory_path, defaults().inventory_path)),
        user_agent: or_else(explicit.user_agent, or_else(env.user_agent, defaults().user_agent)),
        ssl_verify: or_else(explicit.ssl_verify, or_else(env.ssl_verify, defaults().ssl_verify)),
    }
}

/// The view of an optional string.
pub open spec fn opt_view(o: Option<String>) -> Option<Seq<char>> {
    match o {
        Some(s) => Some(s@),
        None => None,
    }
}

/// An immutable, fully resolved configuration.
#[derive(Debug)]
pub struct Configs {
    inventory_path: String,
    user_agent: String,
    ssl_verify: bool,
}

impl View for Configs {
    type V = ConfigsModel;

    closed spec fn view(&self) -> ConfigsModel {
        ConfigsModel {
            inventory_path: self.inventory_path@,
            user_agent: self.user_agent@,
            ssl_verify: self.ssl_verify,
        }
    }
}

impl Configs {
    /// The directory that holds the webhook templates.
    pub fn inventory_path(&self) -> (r: &str)
        ensures
            r@ == self@.inventory_path,
    {
        self.inventory_path.as_str()
    }

    /// The `User-Agent` header value.
    pub fn user_agent(&self) -> (r: &str)
        ensures
            r@ == self@.user_agent,
    {
        self.user_agent.as_str()
    }

    /// Whether TLS certificates are validated.
    pub fn ssl_verify(&self) -> (r: bool)
        ensures
            r == self@.ssl_verify,
    {
        self.ssl_verify
    }
}

/// Overrides read from the environment: only the fields present there are set.
#[derive(Debug)]
pub struct ConfigsEnvironment {
    pub inventory_path: Option<String>,
    pub user_agent: Option<String>,
    pub ssl_verify: Option<bool>,
}

impl View for ConfigsEnvironment {
    type V = OverridesModel;

    open spec fn view(&self) -> OverridesModel {
        OverridesModel {
            inventory_path: opt_view(self.inventory_path),
            user_agent: opt_view(self.user_agent),
            ssl_verify: self.ssl_verify,
        }
    }
}

impl ConfigsEnvironment {
    /// Overrides with the given fields set.
    pub fn new(
        inventory_path: Option<String>,
        user_agent: Option<String>,
        ssl_verify: Option<bool>,
    ) -> (r: ConfigsEnvironment)
        ensures
            r.inventory_path == inventory_path,
            r.user_agent == user_agent,
            r.ssl_verify == ssl_verify,
    {
        ConfigsEnvironment { inventory_path, user_agent, ssl_verify }
    }

    /// Overrides with no field set.
    pub fn empty() -> (r: ConfigsEnvironment)
        ensures
            r@ == (OverridesModel { inventory_path: None, user_agent: None, ssl_verify: None }),
    {
        ConfigsEnvironment { inventory_path: None, user_agent: None, ssl_verify: None }
    }
}

/// The state of a builder: the environment overrides received so far and the
/// explicit overrides, kept apart so that explicit ones win whatever the
/// order of the calls.
pub struct BuilderModel {
    pub env: OverridesModel,
    pub explicit: OverridesModel,
}

/// Assembles a `Configs` from defaults, environment and explicit overrides.
#[derive(Debug)]
pub struct ConfigsBuilder {
    env: ConfigsEnvironment,
    explicit: ConfigsEnvironment,
}

impl View for ConfigsBuilder {
    type V = BuilderModel;

    closed spec fn view(&self) -> BuilderModel {
        BuilderModel { env: self.env@, explicit: self.explicit@ }
    }
}

/// The state of a builder that holds no override: it resolves to the defaults.
pub open spec fn fresh_builder() -> BuilderModel {
    BuilderModel {
        env: OverridesModel { inventory_path: None, user_agent: None, ssl_verify: None },
        explicit: OverridesModel { inventory_path: None, user_agent: None, ssl_verify: None },
    }
}

impl Default for ConfigsBuilder {
    fn default() -> (r: ConfigsBuilder)
        ensures
            r@ == fresh_builder(),
    {
        ConfigsBuilder { env: ConfigsEnvironment::empty(), explicit: ConfigsEnvironment::empty() }
    }
}

impl ConfigsBuilder {
    /// A builder that holds no override yet.
    pub fn new() -> (r: Result<ConfigsBuilder, crate::error::Error>)
        ensures
            r matches Ok(b) && b@ == fresh_builder(),
    {
        Ok(ConfigsBuilder::default())
    }

    /// Applies the fields that `c` sets as environment overrides.
    pub fn from_env(self, c: ConfigsEnvironment) -> (r: ConfigsBuilder)
        ensures
            r@ == (BuilderModel { env: layered(self@.env, c@), explicit: self@.explicit }),
    {
        let mut env = self.env;
        if c.inventory_path.is_some() {
            env.inventory_path = c.inventory_path;
        }
        if c.user_agent.is_some() {
            env.user_agent = c.user_agent;
        }
        if c.ssl_verify.is_some() {
            env.ssl_verify = c.ssl_verify;
        }
        ConfigsBuilder { env, explicit: self.explicit }
    }

    /// Sets the inventory path explicitly.
    pub fn inventory_path(self, path: String) -> (r: ConfigsBuilder)
        ensures
            r@.env == self@.env,
            r@.explicit == (OverridesModel { inventory_path: Some(path@), ..self@.explicit }),
    {
        let mut explicit = self.explicit;
        explicit.inventory_path = Some(path);
        ConfigsBuilder { env: self.env, explicit }
    }

    /// Sets the user agent explicitly.
    pub fn user_agent(self, user_agent: String) -> (r: ConfigsBuilder)
        ensures
            r@.env == self@.env,
            r@.explicit == (OverridesModel { user_agent: Some(user_agent@), ..self@.explicit }),
    {
        let mut explicit = self.explicit;
        explicit.user_agent = Some(user_agent);
        ConfigsBuilder { env: self.env, explicit }
    }

    /// Sets TLS certificate validation explicitly.
    pub fn ssl_verify(self, ssl_verify: bool) -> (r: ConfigsBuilder)
        ensures
            r@.env == self@.env,
            r@.explicit == (OverridesModel { ssl_verify: Some(ssl_verify), ..self@.explicit }),
    {
        let mut explicit = self.explicit;
        explicit.ssl_verify = Some(ssl_verify);
        ConfigsBuilder { env: self.env, explicit }
    }

    /// Resolves the configuration: explicit overrides, else environment
    /// overrides, else defaults.
    pub fn build(self) -> (r: Configs)
        ensures
            r@ == resolve(self@.env, self@.explicit),
    {
        let inventory_path = match self.explicit.inventory_path {
            Some(p) => p,
            None => match self.env.inventory_path {
                Some(p) => p,
                None => DEFAULT_INVENTORY_PATH.to_string(),
            },
        };
        let user_agent = match self.explicit.user_agent {
            Some(u) => u,
            None => match self.env.user_agent {
                Some(u) => u,
                None => DEFAULT_USER_AGENT.to_string(),
            },
        };
        let ssl_verify = match self.explicit.ssl_verify {
            Some(v) => v,
            None => match self.env.ssl_verify {
                Some(v) => v,
                None => true,
            },
        };
        Configs { inventory_path, user_agent, ssl_verify }
    }
}

/// Precedence of configuration sources: for each field, an explicit override
/// decides the resolved value whenever it is set; otherwise an environment
/// override does whenever it is set; otherwise the default applies.
pub proof fn lemma_override_precedence(env: OverridesModel, explicit: OverridesModel)
    ensures
        explicit.inventory_path matches Some(p) ==> resolve(env, explicit).inventory_path == p,
        explicit.user_agent matches Some(u) ==> resolve(env, explicit).user_agent == u,
        explicit.ssl_verify matches Some(v) ==> resolve(env, explicit).ssl_verify == v,
        explicit.inventory_path is None ==> (env.inventory_path matches Some(p)
            ==> resolve(env, explicit).inventory_path == p),
        explicit.user_agent is None ==> (env.user_agent matches Some(u)
            ==> resolve(env, explicit).user_agent == u),
        explicit.ssl_verify is None ==> (env.ssl_verify matches Some(v)
            ==> resolve(env, explicit).ssl_verify == v),
        explicit.inventory_path is None && env.inventory_path is None ==> resolve(
            env,
            explicit,
        ).inventory_path == defaults().inventory_path,
        explicit.user_agent is None && env.user_agent is None ==> resolve(
            env,
            explicit,
        ).user_agent == defaults().user_agent,
        explicit.ssl_verify is None && env.ssl_verify is None ==> resolve(
            env,
            explicit,
        ).ssl_verify == defaults().ssl_verify,
{
}

/// Environment overrides applied after an explicit override never displace
/// it: the explicit value survives any later `from_env`.
pub proof fn lemma_explicit_survives_env(b: BuilderModel, c: OverridesModel)
    ensures
        b.explicit.inventory_path matches Some(p) ==> resolve(layered(b.env, c), b.explicit).inventory_path == p,
        b.explicit.user_agent matches Some(u) ==> resolve(layered(b.env, c), b.explicit).user_agent == u,
        b.explicit.ssl_verify matches Some(v) ==> resolve(layered(b.env, c), b.explicit).ssl_verify == v,
{
}

} // verus!
