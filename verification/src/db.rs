//! Attribute records for the account store, and the location of its database
//! file. The store itself (SQL connection, queries, migrations) lives outside
//! the watcher core; only the values handed to it are modelled here.

use crate::models::NewAccountAttrs;
use vstd::prelude::*;

verus! {

/// The database file name within the application directory.
pub open spec fn spec_db_file_name() -> Seq<char> {
    "mailwatch.db"@
}

/// The path of the database file under `db_dir`, joined with '/'.
pub fn db_path(db_dir: &str) -> (path: String)
    ensures
        path@ == db_dir@ + "/"@ + spec_db_file_name(),
{
    let mut path = String::from_str(db_dir);
    path.append("/");
    path.append("mailwatch.db");
    proof {
        assert(path@ =~= db_dir@ + "/"@ + spec_db_file_name());
    }
    path
}

/// Attributes stored for a newly created account row.
#[derive(Debug, Clone)]
pub struct CreateAccountAttrs {
    pub name: String,
    pub server: String,
    pub port: i64,
    pub color: String,
    pub active: bool,
    pub username: String,
    pub mailbox: String,
}

/// Attributes stored when an account row is edited. The password never
/// reaches the account store; it belongs to the secret store.
#[derive(Debug, Clone)]
pub struct UpdateAccountAttrs {
    pub name: String,
    pub server: String,
    pub port: i64,
    pub color: String,
    pub username: String,
    pub mailbox: String,
}

impl NewAccountAttrs {
    /// The row to store for this new account: its fields, with the account
    /// always created active.
    pub fn to_create(&self) -> (r: CreateAccountAttrs)
        ensures
            r.name == self.name,
            r.server == self.server,
            r.port == self.port,
            r.color == self.color,
            r.active == true,
            r.username == self.username,
            r.mailbox == self.mailbox,
    {
        CreateAccountAttrs {
            name: self.name.clone(),
            server: self.server.clone(),
            port: self.port,
            color: self.color.clone(),
            active: true,
            username: self.username.clone(),
            mailbox: self.mailbox.clone(),
        }
    }
}

impl crate::models::UpdateAccountAttrs {
    /// The row to store for this edit: its fields, with the password left
    /// out.
    pub fn to_stored(&self) -> (r: UpdateAccountAttrs)
        ensures
            r.name == self.name,
            r.server == self.server,
            r.port == self.port,
            r.color == self.color,
            r.username == self.username,
            r.mailbox == self.mailbox,
    {
        UpdateAccountAttrs {
            name: self.name.clone(),
            server: self.server.clone(),
            port: self.port,
            color: self.color.clone(),
            username: self.username.clone(),
            mailbox: self.mailbox.clone(),
        }
    }
}

} // verus!
