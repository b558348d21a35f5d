use vstd::prelude::*;

verus! {

/// Saved connections and settings.
#[derive(Debug, Clone, Default)]
pub struct AppConfig {
    pub connections: Vec<SavedConnection>,
    pub settings: AppSettings,
}

/// A connection the user saved: by SAS connection string, or by namespace
/// for Azure AD.
#[derive(Debug, Clone)]
pub struct SavedConnection {
    pub name: String,
    /// SAS connection string; none for Azure AD connections.
    pub connection_string: Option<String>,
    /// Fully-qualified namespace of an Azure AD connection.
    pub namespace: Option<String>,
    /// How the connection authenticates: `sas` or `azure_ad`.
    pub auth_type: String,
}

/// User settings.
#[derive(Debug, Clone)]
pub struct AppSettings {
    pub peek_count: i32,
    pub auto_refresh_secs: u64,
    pub log_to_file: bool,
}

pub open spec fn sas_tag() -> Seq<char> {
    seq!['s', 'a', 's']
}

pub open spec fn azure_ad_tag() -> Seq<char> {
    seq!['a', 'z', 'u', 'r', 'e', '_', 'a', 'd']
}

/// The authentication tag of a connection saved without one.
pub fn default_auth_type() -> (r: String)
    ensures
        r@ == sas_tag(),
{
    let r = String::from_str("sas");
    proof {
        reveal_strlit("sas");
        assert(r@ =~= sas_tag());
    }
    r
}

fn azure_ad_type() -> (r: String)
    ensures
        r@ == azure_ad_tag(),
{
    let r = String::from_str("azure_ad");
    proof {
        reveal_strlit("azure_ad");
        assert(r@ =~= azure_ad_tag());
    }
    r
}

impl Default for AppSettings {
    /// Peek 25 messages, no auto refresh, no log file.
    fn default() -> (r: AppSettings)
        ensures
            r.peek_count == 25,
            r.auto_refresh_secs == 0,
            !r.log_to_file,
    {
        AppSettings { peek_count: 25, auto_refresh_secs: 0, log_to_file: false }
    }
}

impl SavedConnection {
    /// Whether this connection authenticates through Azure AD.
    pub fn is_azure_ad(&self) -> (r: bool)
        ensures
            r == (self.auth_type@ == azure_ad_tag()),
    {
        let tag = azure_ad_type();
        self.auth_type == tag
    }
}

/// The saved connections not named `name`, in order.
pub open spec fn others(cs: Seq<SavedConnection>, name: Seq<char>) -> Seq<SavedConnection> {
    cs.filter(|c: SavedConnection| c.name@ != name)
}

/// Where the configuration file lives under the configuration directory
/// `base`.
pub open spec fn config_path_spec(base: Seq<char>) -> Seq<char> {
    base + "/sb-explorer/config.toml"@
}

impl AppConfig {
    /// The configuration file under the configuration directory `base`.
    pub fn config_path(base: &str) -> (r: String)
        ensures
            r@ == config_path_spec(base@),
    {
        String::from_str(base).concat("/sb-explorer/config.toml")
    }

    fn without(&mut self, name: &String)
        ensures
            final(self).connections@ == others(old(self).connections@, name@),
            final(self).settings == old(self).settings,
    {
        let mut kept: Vec<SavedConnection> = Vec::new();
        let mut i: usize = 0;
        while i < self.connections.len()
            invariant
                i <= self.connections@.len(),
                kept@ == others(self.connections@.take(i as int), name@),
            decreases self.connections@.len() - i,
        {
            let c = &self.connections[i];
            proof {
                reveal(Seq::filter);
                assert(self.connections@.take(i + 1).drop_last() == self.connections@.take(i as int));
            }
            if c.name != *name {
                kept.push(
                    SavedConnection {
                        name: c.name.clone(),
                        connection_string: crate::models::copy_text(&c.connection_string),
                        namespace: crate::models::copy_text(&c.namespace),
                        auth_type: c.auth_type.clone(),
                    },
                );
                assert(kept@.last() == self.connections@[i as int]);
            }
            i = i + 1;
        }
        assert(self.connections@.take(self.connections@.len() as int) == self.connections@);
        self.connections = kept;
    }

    /// Saves a SAS connection under `name`, replacing any saved under that
    /// name; the new one comes last.
    pub fn add_connection(&mut self, name: String, connection_string: String)
        ensures
            final(self).connections@ == others(old(self).connections@, name@).push(
                SavedConnection {
                    name,
                    connection_string: Some(connection_string),
                    namespace: None,
                    auth_type: final(self).connections@.last().auth_type,
                },
            ),
            final(self).connections@.last().auth_type@ == sas_tag(),
            final(self).settings == old(self).settings,
    {
        self.without(&name);
        self.connections.push(
            SavedConnection {
                name,
                connection_string: Some(connection_string),
                namespace: None,
                auth_type: default_auth_type(),
            },
        );
    }

    /// Saves an Azure AD connection to `namespace` under `name`, replacing
    /// any saved under that name; the new one comes last.
    pub fn add_azure_ad_connection(&mut self, name: String, namespace: String)
        ensures
            final(self).connections@ == others(old(self).connections@, name@).push(
                SavedConnection {
                    name,
                    connection_string: None,
                    namespace: Some(namespace),
                    auth_type: final(self).connections@.last().auth_type,
                },
            ),
            final(self).connections@.last().auth_type@ == azure_ad_tag(),
            final(self).settings == old(self).settings,
    {
        self.without(&name);
        self.connections.push(
            SavedConnection {
                name,
                connection_string: None,
                namespace: Some(namespace),
                auth_type: azure_ad_type(),
            },
        );
    }

    /// Forgets every connection saved under `name`.
    pub fn remove_connection(&mut self, name: &str)
        ensures
            final(self).connections@ == others(old(self).connections@, name@),
            final(self).settings == old(self).settings,
    {
        let n = String::from_str(name);
        self.without(&n);
    }
}

} // verus!
