use vstd::prelude::*;

verus! {

use crate::authentication::{PasswordHash, PasswordSalt, User, UserFinder, UserId, UserView,
    Username};

#[verifier::external_type_specification]
#[verifier::external_body]
pub struct ExClient(postgres::Client);

#[verifier::external_type_specification]
#[verifier::external_body]
pub struct ExStatement(postgres::Statement);

#[verifier::external_type_specification]
#[verifier::external_body]
pub struct ExPostgresError(postgres::Error);

/// Why a lookup in the database-backed store failed.
pub enum StoreError {
    /// The query itself could not be completed; the database's error,
    /// unmodified.
    Backend(postgres::Error),
    /// The row held values outside the documented ranges for a credential
    /// record: a work factor below one, or a salt or hash whose length the
    /// key-derivation function does not accept.
    MalformedRecord,
}

/// Relies on `postgres::Client::prepare`: asks the server to prepare the
/// given statement, to be executed later.
#[verifier::external_body]
fn prepare(client: &mut postgres::Client, query: &str) -> (r: Result<
    postgres::Statement,
    postgres::Error,
>) {
    client.prepare(query)
}

/// Relies on `postgres::Client::query` and `postgres::Row::try_get`: runs
/// the prepared lookup with the username as its one parameter and converts
/// the first returned row, if any, to plain values: the UUID id as its 128
/// bits, the work factor, the salt bytes, the hash bytes. What comes back
/// depends on the database, so nothing is promised of it.
#[verifier::external_body]
fn query_credential_row(
    client: &mut postgres::Client,
    statement: &postgres::Statement,
    username: &str,
) -> (r: Result<Option<(u128, i32, Vec<u8>, Vec<u8>)>, postgres::Error>) {
    let rows = client.query(statement, &[&username])?;
    let row = match rows.first() {
        None => return Ok(None),
        Some(row) => row,
    };
    let id: uuid::Uuid = row.try_get(0)?;
    let iterations: i32 = row.try_get(1)?;
    let salt: Vec<u8> = row.try_get(2)?;
    let hash: Vec<u8> = row.try_get(3)?;
    Ok(Some((id.as_u128(), iterations, salt, hash)))
}

/// The documented ranges for a stored credential row: a positive work
/// factor, and salt and hash lengths the key-derivation function accepts.
pub open spec fn valid_row(iterations: i32, salt: Seq<u8>, hash: Seq<u8>) -> bool {
    &&& 1 <= iterations
    &&& 1 <= hash.len() <= 0x1fffffffe0
    &&& salt.len() < 0x2000000000000000
}

/// Turn what the query handed back into the finder's result: a backend
/// error reaches the caller verbatim inside `StoreError::Backend`; no row
/// is the normal `Ok(None)`; a row becomes a record with the four columns
/// taken verbatim, or `StoreError::MalformedRecord` exactly when a value is
/// out of the documented ranges.
pub fn interpret_query_result(
    row: Result<Option<(u128, i32, Vec<u8>, Vec<u8>)>, postgres::Error>,
) -> (r: Result<Option<User>, StoreError>)
    ensures
        match row {
            Err(e) => r == Err::<Option<User>, StoreError>(StoreError::Backend(e)),
            Ok(None) => r == Ok::<Option<User>, StoreError>(None),
            Ok(Some(columns)) => if valid_row(columns.1, columns.2@, columns.3@) {
                (r matches Ok(Some(user)) && user@ == (UserView {
                    user_id: UserId(columns.0),
                    password_iterations: columns.1 as u32,
                    password_salt: columns.2@,
                    password_hash: columns.3@,
                }))
            } else {
                r == Err::<Option<User>, StoreError>(StoreError::MalformedRecord)
            },
        },
{
    let columns = match row {
        Ok(columns) => columns,
        Err(e) => return Err(StoreError::Backend(e)),
    };
    match columns {
        None => Ok(None),
        Some((id, iterations, salt, hash)) => {
            if iterations < 1 {
                return Err(StoreError::MalformedRecord);
            }
            if hash.len() == 0 || !((hash.len() as u64) <= 0x1fffffffe0u64) {
                return Err(StoreError::MalformedRecord);
            }
            if !((salt.len() as u64) < 0x2000000000000000u64) {
                return Err(StoreError::MalformedRecord);
            }
            Ok(
                Some(
                    User {
                        user_id: UserId(id),
                        password_iterations: iterations as u32,
                        password_salt: PasswordSalt(salt),
                        password_hash: PasswordHash(hash),
                    },
                ),
            )
        },
    }
}

/// Find users by username in a database.
pub struct PostgresUserFinder {
    client: postgres::Client,
    statement: postgres::Statement,
}

impl PostgresUserFinder {
    /// Prepare the credential lookup on the given connection. The store
    /// itself stays out of scope here: nothing is stated of what it holds,
    /// only that a finder that comes back is ready to use.
    pub fn new(mut client: postgres::Client) -> (r: Result<Self, postgres::Error>)
        ensures
            (r matches Ok(finder) ==> finder.inv()),
    {
        let statement = match prepare(
            &mut client,
            "
            SELECT id, password_iterations, password_salt, password_hash
            FROM users
            WHERE username = $1
        ",
        ) {
            Ok(statement) => statement,
            Err(e) => return Err(e),
        };
        Ok(PostgresUserFinder { client, statement })
    }
}

impl UserFinder for PostgresUserFinder {
    type Error = StoreError;

    /// Nothing is assumed of the database.
    open spec fn inv(&self) -> bool {
        true
    }

    /// What the database holds is not a function of this value, so any
    /// outcome is admitted; every record handed on is still well-formed.
    open spec fn may_find(&self, username: Seq<char>, found: Option<UserView>) -> bool {
        true
    }

    /// The lookup may fail: connectivity, the query, or malformed rows.
    open spec fn may_fail(&self, username: Seq<char>, err: StoreError) -> bool {
        true
    }

    fn find_user(&mut self, username: &Username) -> (r: Result<Option<User>, StoreError>) {
        let row = query_credential_row(&mut self.client, &self.statement, username.0.as_str());
        interpret_query_result(row)
    }
}

} // verus!
