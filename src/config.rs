use vstd::prelude::*;

use crate::text::{
    ascii_lowercase, find_char_from, index_of_from, lowercase_ascii, parse_unsigned, same_text,
    starts_with, unsigned_text_value,
};

verus! {

/// A remote compute endpoint, selected by its lowercase name.
#[derive(Debug)]
pub struct Service {
    pub name: String,
    pub upload_url: String,
    pub download_url: String,
    pub runs_per_user: u16,
}

/// The contents of a `Service`.
pub struct ServiceModel {
    pub name: Seq<char>,
    pub upload_url: Seq<char>,
    pub download_url: Seq<char>,
    pub runs_per_user: u16,
}

impl View for Service {
    type V = ServiceModel;

    open spec fn view(&self) -> ServiceModel {
        ServiceModel {
            name: self.name@,
            upload_url: self.upload_url@,
            download_url: self.download_url@,
            runs_per_user: self.runs_per_user,
        }
    }
}

/// Process-wide settings: the service table, where data lives, and how long
/// (in seconds) a job directory is kept before the cleaner reaps it.
#[derive(Debug)]
pub struct Config {
    pub services: Vec<Service>,
    pub db_path: String,
    pub data_path: String,
    pub max_age: u64,
}

/// The contents of a `Config`.
pub struct ConfigModel {
    pub services: Seq<ServiceModel>,
    pub db_path: Seq<char>,
    pub data_path: Seq<char>,
    pub max_age: u64,
}

/// The contents of a list of services.
pub open spec fn services_view(v: Seq<Service>) -> Seq<ServiceModel> {
    v.map_values(|s: Service| s@)
}

impl View for Config {
    type V = ConfigModel;

    open spec fn view(&self) -> ConfigModel {
        ConfigModel {
            services: services_view(self.services@),
            db_path: self.db_path@,
            data_path: self.data_path@,
            max_age: self.max_age,
        }
    }
}

/// Why the settings could not be loaded.
#[derive(Debug, PartialEq, Eq, Structural)]
pub enum ConfigError {
    /// A `SERVICE_<NAME>_RUNS_PER_USER` value is not a number that fits in 16 bits.
    InvalidRunsPerUser,
    /// The `MAX_AGE` value is not a number of seconds that fits in 64 bits.
    InvalidMaxAge,
}

/// No two services share a name.
pub open spec fn unique_names(s: Seq<ServiceModel>) -> bool {
    forall|i: int, j: int| 0 <= i < j < s.len() ==> s[i].name != s[j].name
}

/// Whether some service has the given name.
pub open spec fn has_service(s: Seq<ServiceModel>, name: Seq<char>) -> bool {
    exists|i: int| 0 <= i < s.len() && #[trigger] s[i].name == name
}

/// The position of the first service with the given name.
pub open spec fn first_service_index(s: Seq<ServiceModel>, name: Seq<char>) -> int {
    choose|i: int|
        0 <= i < s.len() && s[i].name == name && forall|j: int|
            0 <= j < i ==> #[trigger] s[j].name != name
}

/// The first service with the given name, if any.
pub open spec fn lookup_service(s: Seq<ServiceModel>, name: Seq<char>) -> Option<ServiceModel> {
    if has_service(s, name) {
        Some(s[first_service_index(s, name)])
    } else {
        None
    }
}

proof fn lemma_first_index(s: Seq<ServiceModel>, name: Seq<char>, k: int)
    requires
        0 <= k < s.len(),
        s[k].name == name,
        forall|j: int| 0 <= j < k ==> #[trigger] s[j].name != name,
    ensures
        has_service(s, name),
        first_service_index(s, name) == k,
        lookup_service(s, name) == Some(s[k]),
{
    let c = first_service_index(s, name);
    assert(0 <= c < s.len() && s[c].name == name && forall|j: int|
        0 <= j < c ==> #[trigger] s[j].name != name);
    if c < k {
        assert(s[c].name != name);
    } else if k < c {
        assert(s[k].name != name);
    }
}

/// Finds the first service with the given name.
fn find_service(services: &Vec<Service>, name: &str) -> (r: Option<usize>)
    ensures
        match r {
            Some(k) => k < services@.len() && lookup_service(services_view(services@), name@)
                == Some(services@[k as int]@) && first_service_index(
                services_view(services@),
                name@,
            ) == k,
            None => lookup_service(services_view(services@), name@) is None,
        },
{
    let ghost v = services_view(services@);
    let mut i: usize = 0;
    while i < services.len()
        invariant
            v == services_view(services@),
            i <= services@.len(),
            forall|j: int| 0 <= j < i ==> #[trigger] v[j].name != name@,
        decreases services@.len() - i,
    {
        if same_text(services[i].name.as_str(), name) {
            proof {
                lemma_first_index(v, name@, i as int);
            }
            return Some(i);
        }
        i += 1;
    }
    assert(!has_service(v, name@));
    None
}

impl Config {
    /// The download URL of the named service, if it is configured.
    pub fn get_download_url(&self, service_name: &str) -> (r: Option<&str>)
        ensures
            match lookup_service(self@.services, service_name@) {
                Some(s) => r matches Some(u) && u@ == s.download_url,
                None => r is None,
            },
    {
        match find_service(&self.services, service_name) {
            Some(k) => Some(self.services[k].download_url.as_str()),
            None => None,
        }
    }

    /// The upload URL of the named service, if it is configured.
    pub fn get_upload_url(&self, service_name: &str) -> (r: Option<&str>)
        ensures
            match lookup_service(self@.services, service_name@) {
                Some(s) => r matches Some(u) && u@ == s.upload_url,
                None => r is None,
            },
    {
        match find_service(&self.services, service_name) {
            Some(k) => Some(self.services[k].upload_url.as_str()),
            None => None,
        }
    }
}

} // verus!

verus! {

/// For a variable `SERVICE_<NAME>_<FIELD>`: the raw name and the field (which
/// may itself hold `_`); none for any other variable, or when no `_` follows
/// the name.
pub open spec fn service_var_parts(key: Seq<char>) -> Option<(Seq<char>, Seq<char>)> {
    if key.len() >= 8 && key.take(8) == "SERVICE_"@ {
        let j = index_of_from(key, '_', 8);
        if j < key.len() {
            Some((key.subrange(8, j), key.subrange(j + 1, key.len() as int)))
        } else {
            None
        }
    } else {
        None
    }
}

/// A service that no variable has described yet: no URLs, five runs per user.
pub open spec fn default_service(name: Seq<char>) -> ServiceModel {
    ServiceModel { name, upload_url: Seq::empty(), download_url: Seq::empty(), runs_per_user: 5 }
}

/// The services, with a default entry for `name` added when it has none.
pub open spec fn ensure_service(s: Seq<ServiceModel>, name: Seq<char>) -> Seq<ServiceModel> {
    if has_service(s, name) {
        s
    } else {
        s.push(default_service(name))
    }
}

/// The services after reading one environment variable.
pub open spec fn apply_service_var(s: Seq<ServiceModel>, key: Seq<char>, value: Seq<char>) -> Result<
    Seq<ServiceModel>,
    ConfigError,
> {
    match service_var_parts(key) {
        None => Ok(s),
        Some((raw, field)) => {
            let name = lowercase_ascii(raw);
            let t = ensure_service(s, name);
            if field == "UPLOAD_URL"@ {
                Ok(
                    t.map_values(
                        |x: ServiceModel|
                            if x.name == name {
                                ServiceModel { upload_url: value, ..x }
                            } else {
                                x
                            },
                    ),
                )
            } else if field == "DOWNLOAD_URL"@ {
                Ok(
                    t.map_values(
                        |x: ServiceModel|
                            if x.name == name {
                                ServiceModel { download_url: value, ..x }
                            } else {
                                x
                            },
                    ),
                )
            } else if field == "RUNS_PER_USER"@ {
                match unsigned_text_value(value) {
                    Some(n) => if n <= 65535 {
                        Ok(
                            t.map_values(
                                |x: ServiceModel|
                                    if x.name == name {
                                        ServiceModel { runs_per_user: n as u16, ..x }
                                    } else {
                                        x
                                    },
                            ),
                        )
                    } else {
                        Err(ConfigError::InvalidRunsPerUser)
                    },
                    None => Err(ConfigError::InvalidRunsPerUser),
                }
            } else {
                Ok(t)
            }
        },
    }
}

/// The services described by a list of environment variables, read in order.
pub open spec fn apply_vars(vars: Seq<(Seq<char>, Seq<char>)>) -> Result<
    Seq<ServiceModel>,
    ConfigError,
>
    decreases vars.len(),
{
    if vars.len() == 0 {
        Ok(Seq::empty())
    } else {
        match apply_vars(vars.drop_last()) {
            Err(e) => Err(e),
            Ok(s) => apply_service_var(s, vars.last().0, vars.last().1),
        }
    }
}

/// The value of the last variable named `key`, if any.
pub open spec fn last_value(vars: Seq<(Seq<char>, Seq<char>)>, key: Seq<char>) -> Option<
    Seq<char>,
>
    decreases vars.len(),
{
    if vars.len() == 0 {
        None
    } else if vars.last().0 == key {
        Some(vars.last().1)
    } else {
        last_value(vars.drop_last(), key)
    }
}

/// Seconds a directory is kept when `MAX_AGE` is not set: ten days.
pub const DEFAULT_MAX_AGE: u64 = 864000;

/// The cleaner's age limit that the variables give.
pub open spec fn max_age_from(vars: Seq<(Seq<char>, Seq<char>)>) -> Result<u64, ConfigError> {
    match last_value(vars, "MAX_AGE"@) {
        None => Ok(DEFAULT_MAX_AGE),
        Some(v) => match unsigned_text_value(v) {
            Some(n) => if n <= u64::MAX {
                Ok(n as u64)
            } else {
                Err(ConfigError::InvalidMaxAge)
            },
            None => Err(ConfigError::InvalidMaxAge),
        },
    }
}

/// The value of `key`, or `cwd` followed by `suffix` when it is not set.
pub open spec fn path_or_default(
    vars: Seq<(Seq<char>, Seq<char>)>,
    key: Seq<char>,
    cwd: Seq<char>,
    suffix: Seq<char>,
) -> Seq<char> {
    match last_value(vars, key) {
        Some(p) => p,
        None => cwd + suffix,
    }
}

/// The settings that a list of environment variables and a working directory give.
pub open spec fn config_from_vars(vars: Seq<(Seq<char>, Seq<char>)>, cwd: Seq<char>) -> Result<
    ConfigModel,
    ConfigError,
> {
    match apply_vars(vars) {
        Err(e) => Err(e),
        Ok(services) => match max_age_from(vars) {
            Err(e) => Err(e),
            Ok(max_age) => Ok(
                ConfigModel {
                    services,
                    db_path: path_or_default(vars, "DB_PATH"@, cwd, "/db.sqlite"@),
                    data_path: path_or_default(vars, "DATA_PATH"@, cwd, "/data"@),
                    max_age,
                },
            ),
        },
    }
}

/// The contents of a list of environment variables.
pub open spec fn vars_view(v: Seq<(String, String)>) -> Seq<(Seq<char>, Seq<char>)> {
    v.map_values(|p: (String, String)| (p.0@, p.1@))
}

/// Replaces the service at position `k`, keeping the others.
fn replace_service(
    services: &mut Vec<Service>,
    k: usize,
    upload_url: String,
    download_url: String,
    runs_per_user: u16,
)
    requires
        k < old(services)@.len(),
    ensures
        services_view(final(services)@) == services_view(old(services)@).update(
            k as int,
            ServiceModel {
                name: old(services)@[k as int].name@,
                upload_url: upload_url@,
                download_url: download_url@,
                runs_per_user,
            },
        ),
{
    let name = services[k].name.clone();
    services.set(k, Service { name, upload_url, download_url, runs_per_user });
    assert(services_view(services@) =~= services_view(old(services)@).update(
        k as int,
        ServiceModel {
            name: old(services)@[k as int].name@,
            upload_url: upload_url@,
            download_url: download_url@,
            runs_per_user,
        },
    ));
}

/// Reads one environment variable into the service table.
fn apply_var(services: &mut Vec<Service>, key: &str, value: &str) -> (r: Result<(), ConfigError>)
    requires
        unique_names(services_view(old(services)@)),
    ensures
        match apply_service_var(services_view(old(services)@), key@, value@) {
            Ok(s) => r is Ok && services_view(final(services)@) == s && unique_names(s),
            Err(e) => r == Err::<(), ConfigError>(e),
        },
{
    proof {
        reveal_strlit("SERVICE_");
    }
    if !starts_with(key, "SERVICE_") {
        return Ok(());
    }
    let n = key.unicode_len();
    let j = find_char_from(key, '_', 8);
    if j >= n {
        return Ok(());
    }
    let raw = key.substring_char(8, j);
    let field = key.substring_char(j + 1, n);
    let name = ascii_lowercase(raw);
    let ghost nm = name@;
    let ghost s0 = services_view(services@);
    let k = match find_service(services, name.as_str()) {
        Some(k) => k,
        None => {
            services.push(
                Service {
                    name,
                    upload_url: String::new(),
                    download_url: String::new(),
                    runs_per_user: 5,
                },
            );
            assert(services_view(services@) =~= s0.push(default_service(nm)));
            services.len() - 1
        },
    };
    let ghost t = services_view(services@);
    assert(t == ensure_service(s0, nm));
    assert(t[k as int].name == nm);
    assert(unique_names(t));
    let cur_upload = services[k].upload_url.clone();
    let cur_download = services[k].download_url.clone();
    let cur_runs = services[k].runs_per_user;
    if same_text(field, "UPLOAD_URL") {
        replace_service(services, k, String::from_str(value), cur_download, cur_runs);
        assert(services_view(services@) =~= t.map_values(
            |x: ServiceModel|
                if x.name == nm {
                    ServiceModel { upload_url: value@, ..x }
                } else {
                    x
                },
        ));
        Ok(())
    } else if same_text(field, "DOWNLOAD_URL") {
        replace_service(services, k, cur_upload, String::from_str(value), cur_runs);
        assert(services_view(services@) =~= t.map_values(
            |x: ServiceModel|
                if x.name == nm {
                    ServiceModel { download_url: value@, ..x }
                } else {
                    x
                },
        ));
        Ok(())
    } else if same_text(field, "RUNS_PER_USER") {
        match parse_unsigned(value, 65535) {
            Some(v) => {
                replace_service(services, k, cur_upload, cur_download, v as u16);
                assert(services_view(services@) =~= t.map_values(
                    |x: ServiceModel|
                        if x.name == nm {
                            ServiceModel { runs_per_user: v as u16, ..x }
                        } else {
                            x
                        },
                ));
                Ok(())
            },
            None => Err(ConfigError::InvalidRunsPerUser),
        }
    } else {
        Ok(())
    }
}

/// The value of the last variable named `key`, if any.
fn var_value(vars: &Vec<(String, String)>, key: &str) -> (r: Option<String>)
    ensures
        match last_value(vars_view(vars@), key@) {
            Some(v) => r matches Some(s) && s@ == v,
            None => r is None,
        },
{
    let ghost vv = vars_view(vars@);
    let mut found: Option<String> = None;
    let mut i: usize = 0;
    while i < vars.len()
        invariant
            vv == vars_view(vars@),
            i <= vars@.len(),
            match last_value(vv.take(i as int), key@) {
                Some(v) => found matches Some(s) && s@ == v,
                None => found is None,
            },
        decreases vars@.len() - i,
    {
        proof {
            assert(vv.take(i as int + 1).drop_last() =~= vv.take(i as int));
        }
        if same_text(vars[i].0.as_str(), key) {
            found = Some(vars[i].1.clone());
        }
        i += 1;
    }
    assert(vv.take(vars@.len() as int) =~= vv);
    found
}

impl Config {
    /// Builds the settings from environment variables, in the order given, and
    /// the working directory that default paths are placed in:
    /// `SERVICE_<NAME>_UPLOAD_URL`, `SERVICE_<NAME>_DOWNLOAD_URL` and
    /// `SERVICE_<NAME>_RUNS_PER_USER` describe the service `<name>` (lowercased);
    /// `DB_PATH`, `DATA_PATH` and `MAX_AGE` (seconds) set the rest.
    pub fn from_vars(vars: &Vec<(String, String)>, cwd: &str) -> (r: Result<Config, ConfigError>)
        ensures
            match config_from_vars(vars_view(vars@), cwd@) {
                Ok(m) => r matches Ok(c) && c@ == m,
                Err(e) => r matches Err(x) && x == e,
            },
    {
        let ghost vv = vars_view(vars@);
        let mut services: Vec<Service> = Vec::new();
        assert(vv.take(0) =~= Seq::<(Seq<char>, Seq<char>)>::empty());
        assert(services_view(services@) =~= Seq::<ServiceModel>::empty());
        let mut i: usize = 0;
        while i < vars.len()
            invariant
                vv == vars_view(vars@),
                i <= vars@.len(),
                apply_vars(vv.take(i as int)) == Ok::<Seq<ServiceModel>, ConfigError>(
                    services_view(services@),
                ),
                unique_names(services_view(services@)),
            decreases vars@.len() - i,
        {
            proof {
                assert(vv.take(i as int + 1).drop_last() =~= vv.take(i as int));
            }
            match apply_var(&mut services, vars[i].0.as_str(), vars[i].1.as_str()) {
                Ok(()) => {},
                Err(e) => {
                    proof {
                        assert(vv.take(i as int + 1).last() == vv[i as int]);
                        lemma_apply_vars_error(vv, i as int + 1);
                    }
                    return Err(e);
                },
            }
            i += 1;
        }
        assert(vv.take(vars@.len() as int) =~= vv);
        let max_age = match var_value(vars, "MAX_AGE") {
            None => DEFAULT_MAX_AGE,
            Some(v) => match parse_unsigned(v.as_str(), u64::MAX) {
                Some(n) => n,
                None => {
                    return Err(ConfigError::InvalidMaxAge);
                },
            },
        };
        let db_path = match var_value(vars, "DB_PATH") {
            Some(p) => p,
            None => String::from_str(cwd).concat("/db.sqlite"),
        };
        let data_path = match var_value(vars, "DATA_PATH") {
            Some(p) => p,
            None => String::from_str(cwd).concat("/data"),
        };
        Ok(Config { services, db_path, data_path, max_age })
    }
}

/// An error met while reading a prefix is the error of the whole list.
proof fn lemma_apply_vars_error(vars: Seq<(Seq<char>, Seq<char>)>, k: int)
    requires
        0 <= k <= vars.len(),
        apply_vars(vars.take(k)) is Err,
    ensures
        apply_vars(vars) == apply_vars(vars.take(k)),
    decreases vars.len() - k,
{
    if k < vars.len() {
        assert(vars.take(k + 1).drop_last() =~= vars.take(k));
        lemma_apply_vars_error(vars, k + 1);
    } else {
        assert(vars.take(k) =~= vars);
    }
}

} // verus!
