//! Request values and their routing keys.
//!
//! Each administrative action takes a request value; the only things this
//! layer reads from one are the resource name that routes the call and, for
//! list operations, the continuation token threaded between pages. Every
//! request type therefore carries those fields as plain values, plus its plain
//! payload fields, and offers a `routing_key` builder: the single place where
//! the `field=value` routing metadata string is formed, once per attempt.

use vstd::prelude::*;
use vstd::string::StringExecFns;

verus! {

/// A request to list the databases of an instance.
#[derive(Clone, Debug)]
pub struct ListDatabasesRequest {
    /// The instance whose databases are listed; routes the call.
    pub parent: String,
    /// Server page size hint; zero or less means the server's default.
    pub page_size: i32,
    /// Continuation token from a prior page, empty on the first call.
    pub page_token: String,
}

impl ListDatabasesRequest {
    /// The routing metadata for this call.
    pub fn routing_key(&self) -> (r: String)
        ensures
            r@ == "parent="@ + self.parent@,
    {
        String::from_str("parent=").concat(self.parent.as_str())
    }
}

/// A request to create a database under an instance.
#[derive(Clone, Debug)]
pub struct CreateDatabaseRequest {
    /// The instance that will contain the database; routes the call.
    pub parent: String,
    /// The `CREATE DATABASE` statement.
    pub create_statement: String,
    /// Further schema statements to run after creation.
    pub extra_statements: Vec<String>,
}

impl CreateDatabaseRequest {
    /// The routing metadata for this call.
    pub fn routing_key(&self) -> (r: String)
        ensures
            r@ == "parent="@ + self.parent@,
    {
        String::from_str("parent=").concat(self.parent.as_str())
    }
}

/// A request for the state of one database.
#[derive(Clone, Debug)]
pub struct GetDatabaseRequest {
    /// The database's resource name; routes the call.
    pub name: String,
}

impl GetDatabaseRequest {
    /// The routing metadata for this call.
    pub fn routing_key(&self) -> (r: String)
        ensures
            r@ == "name="@ + self.name@,
    {
        String::from_str("name=").concat(self.name.as_str())
    }
}

/// A request to change a database's schema.
#[derive(Clone, Debug)]
pub struct UpdateDatabaseDdlRequest {
    /// The database whose schema changes; routes the call.
    pub database: String,
    /// The DDL statements to run, in order.
    pub statements: Vec<String>,
    /// Caller-chosen identifier for the resulting operation; may be empty.
    pub operation_id: String,
}

impl UpdateDatabaseDdlRequest {
    /// The routing metadata for this call.
    pub fn routing_key(&self) -> (r: String)
        ensures
            r@ == "database="@ + self.database@,
    {
        String::from_str("database=").concat(self.database.as_str())
    }
}

/// A request to drop (delete) a database.
#[derive(Clone, Debug)]
pub struct DropDatabaseRequest {
    /// The database to drop; routes the call.
    pub database: String,
}

impl DropDatabaseRequest {
    /// The routing metadata for this call.
    pub fn routing_key(&self) -> (r: String)
        ensures
            r@ == "database="@ + self.database@,
    {
        String::from_str("database=").concat(self.database.as_str())
    }
}

/// A request for a database's schema as DDL statements.
#[derive(Clone, Debug)]
pub struct GetDatabaseDdlRequest {
    /// The database whose schema is read; routes the call.
    pub database: String,
}

impl GetDatabaseDdlRequest {
    /// The routing metadata for this call.
    pub fn routing_key(&self) -> (r: String)
        ensures
            r@ == "database="@ + self.database@,
    {
        String::from_str("database=").concat(self.database.as_str())
    }
}

/// A request to replace the access-control policy on a database or backup.
#[derive(Clone, Debug)]
pub struct SetIamPolicyRequest {
    /// The resource whose policy is replaced; routes the call.
    pub resource: String,
}

impl SetIamPolicyRequest {
    /// The routing metadata for this call.
    pub fn routing_key(&self) -> (r: String)
        ensures
            r@ == "resource="@ + self.resource@,
    {
        String::from_str("resource=").concat(self.resource.as_str())
    }
}

/// A request for the access-control policy of a database or backup.
#[derive(Clone, Debug)]
pub struct GetIamPolicyRequest {
    /// The resource whose policy is read; routes the call.
    pub resource: String,
}

impl GetIamPolicyRequest {
    /// The routing metadata for this call.
    pub fn routing_key(&self) -> (r: String)
        ensures
            r@ == "resource="@ + self.resource@,
    {
        String::from_str("resource=").concat(self.resource.as_str())
    }
}

/// A request asking which of the named permissions the caller holds.
#[derive(Clone, Debug)]
pub struct TestIamPermissionsRequest {
    /// The resource the permissions are checked against; routes the call.
    pub resource: String,
    /// The permissions to test.
    pub permissions: Vec<String>,
}

impl TestIamPermissionsRequest {
    /// The routing metadata for this call.
    pub fn routing_key(&self) -> (r: String)
        ensures
            r@ == "resource="@ + self.resource@,
    {
        String::from_str("resource=").concat(self.resource.as_str())
    }
}

/// A request to start creating a backup.
#[derive(Clone, Debug)]
pub struct CreateBackupRequest {
    /// The instance that will contain the backup; routes the call.
    pub parent: String,
    /// The caller-chosen identifier of the new backup.
    pub backup_id: String,
}

impl CreateBackupRequest {
    /// The routing metadata for this call.
    pub fn routing_key(&self) -> (r: String)
        ensures
            r@ == "parent="@ + self.parent@,
    {
        String::from_str("parent=").concat(self.parent.as_str())
    }
}

/// A request for the metadata of one backup.
#[derive(Clone, Debug)]
pub struct GetBackupRequest {
    /// The backup's resource name; routes the call.
    pub name: String,
}

impl GetBackupRequest {
    /// The routing metadata for this call.
    pub fn routing_key(&self) -> (r: String)
        ensures
            r@ == "name="@ + self.name@,
    {
        String::from_str("name=").concat(self.name.as_str())
    }
}

/// The backup resource carried by an update, reduced to the field this layer
/// reads: its resource name.
#[derive(Clone, Debug)]
pub struct BackupInfo {
    /// The backup's resource name.
    pub name: String,
}

/// A request to update a pending or completed backup. The backup resource is
/// optional on the wire; a request without one cannot be routed.
#[derive(Clone, Debug)]
pub struct UpdateBackupRequest {
    /// The backup being updated, if the caller supplied one.
    pub backup: Option<BackupInfo>,
}

impl UpdateBackupRequest {
    /// The routing metadata for this call; only a request that names its
    /// backup can be routed.
    pub fn routing_key(&self) -> (r: String)
        requires
            self.backup is Some,
        ensures
            r@ == "backup.name="@ + self.backup->0.name@,
    {
        match &self.backup {
            Some(backup) => String::from_str("backup.name=").concat(backup.name.as_str()),
            None => String::new(),
        }
    }
}

/// A request to delete a backup.
#[derive(Clone, Debug)]
pub struct DeleteBackupRequest {
    /// The backup to delete; routes the call.
    pub name: String,
}

impl DeleteBackupRequest {
    /// The routing metadata for this call.
    pub fn routing_key(&self) -> (r: String)
        ensures
            r@ == "name="@ + self.name@,
    {
        String::from_str("name=").concat(self.name.as_str())
    }
}

/// A request to list the backups of an instance.
#[derive(Clone, Debug)]
pub struct ListBackupsRequest {
    /// The instance whose backups are listed; routes the call.
    pub parent: String,
    /// A server-side filter expression; may be empty.
    pub filter: String,
    /// Server page size hint; zero or less means the server's default.
    pub page_size: i32,
    /// Continuation token from a prior page, empty on the first call.
    pub page_token: String,
}

impl ListBackupsRequest {
    /// The routing metadata for this call.
    pub fn routing_key(&self) -> (r: String)
        ensures
            r@ == "parent="@ + self.parent@,
    {
        String::from_str("parent=").concat(self.parent.as_str())
    }
}

/// A request to create a database by restoring a completed backup.
#[derive(Clone, Debug)]
pub struct RestoreDatabaseRequest {
    /// The instance that will contain the restored database; routes the call.
    pub parent: String,
    /// The caller-chosen identifier of the new database.
    pub database_id: String,
    /// The backup to restore from.
    pub backup: String,
}

impl RestoreDatabaseRequest {
    /// The routing metadata for this call.
    pub fn routing_key(&self) -> (r: String)
        ensures
            r@ == "parent="@ + self.parent@,
    {
        String::from_str("parent=").concat(self.parent.as_str())
    }
}

/// A request to list the backup operations of an instance.
#[derive(Clone, Debug)]
pub struct ListBackupOperationsRequest {
    /// The instance whose backup operations are listed; routes the call.
    pub parent: String,
    /// A server-side filter expression; may be empty.
    pub filter: String,
    /// Server page size hint; zero or less means the server's default.
    pub page_size: i32,
    /// Continuation token from a prior page, empty on the first call.
    pub page_token: String,
}

impl ListBackupOperationsRequest {
    /// The routing metadata for this call.
    pub fn routing_key(&self) -> (r: String)
        ensures
            r@ == "parent="@ + self.parent@,
    {
        String::from_str("parent=").concat(self.parent.as_str())
    }
}

/// A request to list the database operations of an instance.
#[derive(Clone, Debug)]
pub struct ListDatabaseOperationsRequest {
    /// The instance whose database operations are listed; routes the call.
    pub parent: String,
    /// A server-side filter expression; may be empty.
    pub filter: String,
    /// Server page size hint; zero or less means the server's default.
    pub page_size: i32,
    /// Continuation token from a prior page, empty on the first call.
    pub page_token: String,
}

impl ListDatabaseOperationsRequest {
    /// The routing metadata for this call.
    pub fn routing_key(&self) -> (r: String)
        ensures
            r@ == "parent="@ + self.parent@,
    {
        String::from_str("parent=").concat(self.parent.as_str())
    }
}

} // verus!
