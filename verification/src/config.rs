use vstd::prelude::*;

verus! {

/// Why no configuration place could be named.
#[derive(PartialEq, Eq, Structural, Clone, Copy, Debug)]
pub enum ConfigError {
    /// none of the three home variables is set
    NoHome,
}

/// Where the configuration directory lives, given the values of the three
/// environment variables that may name it, most specific first: the explicit
/// override as it stands; else the XDG configuration home with "/asciinema"
/// appended; else the home directory with "/.config/asciinema" appended;
/// else nowhere.
pub open spec fn config_dir_of(
    config_home: Option<String>,
    xdg_home: Option<String>,
    home: Option<String>,
) -> Option<Seq<char>> {
    match config_home {
        Some(c) => Some(c@),
        None => match xdg_home {
            Some(x) => Some(x@ + "/asciinema"@),
            None => match home {
                Some(h) => Some(h@ + "/.config/asciinema"@),
                None => None,
            },
        },
    }
}

/// The location to keep configuration in, from the values of the
/// ASCIINEMA_CONFIG_HOME, XDG_CONFIG_HOME and HOME variables, exactly as
/// `config_dir_of` names it; it errs only when all three are unset.
pub fn get_location(
    config_home: Option<String>,
    xdg_home: Option<String>,
    home: Option<String>,
) -> (r: Result<String, ConfigError>)
    ensures
        config_dir_of(config_home, xdg_home, home) matches Some(s) ==> (r matches Ok(p) && p@
            == s),
        config_dir_of(config_home, xdg_home, home) is None ==> r == Err::<
            String,
            ConfigError,
        >(ConfigError::NoHome),
{
    if let Some(c) = config_home {
        return Ok(c);
    }
    if let Some(x) = xdg_home {
        return Ok(x.concat("/asciinema"));
    }
    if let Some(h) = home {
        return Ok(h.concat("/.config/asciinema"));
    }
    Err(ConfigError::NoHome)
}

/// The configuration directory, under the same strategy as `get_location`.
pub fn get_config_dir(
    config_home: Option<String>,
    xdg_home: Option<String>,
    home: Option<String>,
) -> (r: Result<String, ConfigError>)
    ensures
        config_dir_of(config_home, xdg_home, home) matches Some(s) ==> (r matches Ok(p) && p@
            == s),
        config_dir_of(config_home, xdg_home, home) is None ==> r == Err::<
            String,
            ConfigError,
        >(ConfigError::NoHome),
{
    get_location(config_home, xdg_home, home)
}

/// The configuration file: "config" inside the configuration directory.
pub fn get_config_file(
    config_home: Option<String>,
    xdg_home: Option<String>,
    home: Option<String>,
) -> (r: Result<String, ConfigError>)
    ensures
        config_dir_of(config_home, xdg_home, home) matches Some(s) ==> (r matches Ok(p) && p@ == s
            + "/config"@),
        config_dir_of(config_home, xdg_home, home) is None ==> r == Err::<
            String,
            ConfigError,
        >(ConfigError::NoHome),
{
    match get_config_dir(config_home, xdg_home, home) {
        Ok(dir) => Ok(dir.concat("/config")),
        Err(e) => Err(e),
    }
}

/// The install-id file: "install-id" inside the configuration directory.
pub fn get_install_id_file(
    config_home: Option<String>,
    xdg_home: Option<String>,
    home: Option<String>,
) -> (r: Result<String, ConfigError>)
    ensures
        config_dir_of(config_home, xdg_home, home) matches Some(s) ==> (r matches Ok(p) && p@ == s
            + "/install-id"@),
        config_dir_of(config_home, xdg_home, home) is None ==> r == Err::<
            String,
            ConfigError,
        >(ConfigError::NoHome),
{
    match get_config_dir(config_home, xdg_home, home) {
        Ok(dir) => Ok(dir.concat("/install-id")),
        Err(e) => Err(e),
    }
}

} // verus!
