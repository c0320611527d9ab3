//! Credentials of the two services the program talks to.

use vstd::prelude::*;

verus! {

/// The whole configuration.
#[derive(Clone, Debug, PartialEq, Eq)]
pub struct Config {
    pub divera: Divera,
    pub webdav: WebDav,
}

/// The account at the incident-management service.
#[derive(Clone, Debug, PartialEq, Eq)]
pub struct Divera {
    pub username: String,
    pub password: String,
}

/// The account at the file server, and the directory that exports go to.
#[derive(Clone, Debug, PartialEq, Eq)]
pub struct WebDav {
    pub username: String,
    pub password: String,
    pub root_directory: String,
}

impl Config {
    /// A configuration from its five settings.
    pub fn new(
        divera_username: String,
        divera_password: String,
        webdav_username: String,
        webdav_password: String,
        webdav_directory: String,
    ) -> (config: Config)
        ensures
            config == (Config {
                divera: Divera { username: divera_username, password: divera_password },
                webdav: WebDav {
                    username: webdav_username,
                    password: webdav_password,
                    root_directory: webdav_directory,
                },
            }),
    {
        Config {
            divera: Divera { username: divera_username, password: divera_password },
            webdav: WebDav {
                username: webdav_username,
                password: webdav_password,
                root_directory: webdav_directory,
            },
        }
    }
}

impl WebDav {
    /// Where a file named `file_name` goes on the file server: the root
    /// directory, a slash, and the name.
    pub fn remote_path(&self, file_name: &str) -> (path: String)
        ensures
            path@ == self.root_directory@ + "/"@ + file_name@,
    {
        let mut path = self.root_directory.clone();
        path.append("/");
        path.append(file_name);
        path
    }
}

} // verus!
