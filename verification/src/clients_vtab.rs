//! The table of clients as the host sees it: two columns, `name` and
//! `options`, rows that can be inserted and read, and no other change.

use crate::clients::Client;
use crate::environment::Environment;
use crate::errors::{ConfigError, ConfigErrorKind, ConfigErrorView};
use crate::options::{build_client, client_built, ClientSettings, SettingsView};
use crate::registry::ClientRegistry;
use crate::text::texts;
use vstd::prelude::*;
use vstd::string::*;

verus! {

/// The columns of the table.
#[derive(Clone, Copy, Debug, PartialEq, Eq, Structural)]
pub enum Columns {
    Name,
    Options,
}

/// The column with the given number, if there is one.
pub fn column(index: i32) -> (r: Option<Columns>)
    ensures
        r == (if index == 0 {
            Some(Columns::Name)
        } else if index == 1 {
            Some(Columns::Options)
        } else {
            None
        }),
{
    match index {
        0 => Some(Columns::Name),
        1 => Some(Columns::Options),
        _ => None,
    }
}

/// The statement that declares the table to the host.
pub const SCHEMA: &'static str = "create table x(name text primary key, options)";

/// What stands in the `options` column of a row that is inserted.
#[derive(Debug)]
pub enum OptionsValue {
    /// A text: the tag of a provider, for a client with the provider's
    /// defaults and the row's name as its model.
    Tag(String),
    /// A client that was built from options before.
    Built(Client),
    /// Anything else.
    Other,
}

/// A change that the host asks of the table.
#[derive(Debug)]
pub enum UpdateOperation {
    Delete,
    Update,
    Insert { name: String, options: OptionsValue },
}

/// A change that the table does not support.
#[derive(Clone, Copy, Debug, PartialEq, Eq, Structural)]
pub enum Unsupported {
    Delete,
    Update,
}

/// Why a change of the table failed.
#[derive(Clone, Debug, PartialEq, Eq)]
pub enum TableError {
    /// Rows cannot be deleted or updated.
    UnsupportedOperation(Unsupported),
    /// The client of the row could not be configured.
    Config(ConfigError),
}

/// The text of the error for a change that is not supported.
pub open spec fn unsupported_message(operation: Unsupported) -> Seq<char> {
    match operation {
        Unsupported::Delete => "DELETE operations on rembed_clients is not supported yet"@,
        Unsupported::Update => "UPDATE operations on rembed_clients is not supported yet"@,
    }
}

impl TableError {
    /// The text of the error.
    pub fn message(&self) -> (r: String)
        ensures
            r@ == match *self {
                TableError::UnsupportedOperation(operation) => unsupported_message(operation),
                TableError::Config(error) => crate::errors::config_message(error.kind, error.detail@),
            },
    {
        match self {
            TableError::UnsupportedOperation(Unsupported::Delete) => String::from_str(
                "DELETE operations on rembed_clients is not supported yet",
            ),
            TableError::UnsupportedOperation(Unsupported::Update) => String::from_str(
                "UPDATE operations on rembed_clients is not supported yet",
            ),
            TableError::Config(error) => error.message(),
        }
    }
}

/// The settings of a client that is registered by the tag of its provider:
/// the name of the row is the model, and nothing else is set.
pub open spec fn named_settings(name: Seq<char>) -> SettingsView {
    SettingsView {
        model: Some(name),
        url: None,
        key: None,
        region: None,
        aws_access_key_id: None,
        aws_secret_access_key: None,
        aws_session_token: None,
    }
}

/// Whether a table went from `before` to `after` with the result `r` as the
/// insertion of a row must have it, `built` being what building the row's
/// client gave: the client stands under the name, or the error is handed on
/// and nothing has changed.
pub open spec fn row_inserted(
    before: Map<Seq<char>, Client>,
    after: Map<Seq<char>, Client>,
    name: Seq<char>,
    built: Result<Client, ConfigError>,
    r: Result<(), TableError>,
) -> bool {
    match built {
        Ok(client) => r is Ok && after == before.insert(name, client),
        Err(error) => {
            &&& after == before
            &&& r matches Err(TableError::Config(e))
            &&& e@ == error@
        },
    }
}

/// Whether a table went from `before` to `after` with the result `r` as the
/// change must have it. Deleting and updating fail and change nothing. A row
/// with a provider's tag registers the client built for that tag, a row with
/// a built client registers that client, and any other row fails for want of
/// options.
pub open spec fn changed(
    before: Map<Seq<char>, Client>,
    after: Map<Seq<char>, Client>,
    operation: UpdateOperation,
    environment: &Environment,
    r: Result<(), TableError>,
) -> bool {
    match operation {
        UpdateOperation::Delete => {
            &&& after == before
            &&& r matches Err(TableError::UnsupportedOperation(Unsupported::Delete))
        },
        UpdateOperation::Update => {
            &&& after == before
            &&& r matches Err(TableError::UnsupportedOperation(Unsupported::Update))
        },
        UpdateOperation::Insert { name, options } => match options {
            OptionsValue::Tag(tag) => exists|built: Result<Client, ConfigError>|
                #![trigger row_inserted(before, after, name@, built, r)]
                client_built(
                    tag@,
                    named_settings(name@),
                    environment,
                    ConfigErrorKind::UnknownProvider,
                    built,
                ) && row_inserted(before, after, name@, built, r),
            OptionsValue::Built(client) => r is Ok && after == before.insert(name@, client),
            OptionsValue::Other => {
                &&& after == before
                &&& r matches Err(TableError::Config(e))
                &&& e@ == (ConfigErrorView { kind: ConfigErrorKind::OptionsRequired, detail: ""@ })
            },
        },
    }
}

/// The table of clients of one session.
pub struct ClientsTable {
    pub clients: ClientRegistry,
}

impl ClientsTable {
    /// The table over a registry, with the statement that declares it.
    pub fn create(clients: ClientRegistry) -> (r: (String, ClientsTable))
        ensures
            r.0@ == SCHEMA@,
            r.1.clients == clients,
    {
        Self::connect(clients)
    }

    /// The table over a registry, with the statement that declares it.
    pub fn connect(clients: ClientRegistry) -> (r: (String, ClientsTable))
        ensures
            r.0@ == SCHEMA@,
            r.1.clients == clients,
    {
        (String::from_str(SCHEMA), ClientsTable { clients })
    }

    /// A cursor over the names that are registered at this moment: each name
    /// of the registry once.
    pub fn open(&self) -> (r: ClientsCursor)
        ensures
            r.keys() == self.clients.names(),
            r.keys().no_duplicates(),
            r.keys().to_set() == self.clients@.dom(),
            r.position() == 0,
    {
        ClientsCursor::new(self)
    }

    /// Applies a change to the table. Only rows can be inserted.
    pub fn update(&mut self, operation: UpdateOperation, environment: &Environment) -> (r: Result<
        (),
        TableError,
    >)
        ensures
            changed(old(self).clients@, final(self).clients@, operation, environment, r),
    {
        match operation {
            UpdateOperation::Delete => Err(TableError::UnsupportedOperation(Unsupported::Delete)),
            UpdateOperation::Update => Err(TableError::UnsupportedOperation(Unsupported::Update)),
            UpdateOperation::Insert { name, options } => match options {
                OptionsValue::Tag(tag) => {
                    let mut settings = ClientSettings::new();
                    settings.model = Some(name.clone());
                    let built = build_client(
                        tag.as_str(),
                        settings,
                        environment,
                        ConfigErrorKind::UnknownProvider,
                    );
                    let ghost before = self.clients@;
                    match built {
                        Ok(client) => {
                            self.clients.insert(name.as_str(), client);
                            let r = Ok(());
                            assert(row_inserted(before, self.clients@, name@, built, r));
                            r
                        },
                        Err(error) => {
                            let r = Err(TableError::Config(error));
                            assert(row_inserted(before, self.clients@, name@, built, r));
                            r
                        },
                    }
                },
                OptionsValue::Built(client) => {
                    self.clients.insert(name.as_str(), client);
                    Ok(())
                },
                OptionsValue::Other => Err(
                    TableError::Config(ConfigError::new(ConfigErrorKind::OptionsRequired, "")),
                ),
            },
        }
    }
}

/// A cursor over the rows of the table: the names that were registered when
/// it was opened, and the place of the row it stands on.
pub struct ClientsCursor {
    keys: Vec<String>,
    rowid: i64,
}

impl ClientsCursor {
    #[verifier::type_invariant]
    spec fn well_formed(&self) -> bool {
        0 <= self.rowid
    }

    /// The names that the cursor walks over.
    pub closed spec fn keys(&self) -> Seq<Seq<char>> {
        texts(self.keys@)
    }

    /// The place of the row that the cursor stands on, counted from 0.
    pub closed spec fn position(&self) -> int {
        self.rowid as int
    }

    /// A cursor on the first row of a table; its rows are the names of the
    /// registry, each once.
    pub fn new(table: &ClientsTable) -> (r: ClientsCursor)
        ensures
            r.keys() == table.clients.names(),
            r.keys().no_duplicates(),
            r.keys().to_set() == table.clients@.dom(),
            r.position() == 0,
    {
        ClientsCursor { keys: table.clients.list_names(), rowid: 0 }
    }

    /// Moves to the next row.
    pub fn next(&mut self)
        requires
            old(self).position() < i64::MAX,
        ensures
            final(self).position() == old(self).position() + 1,
            final(self).keys() == old(self).keys(),
    {
        proof {
            use_type_invariant(&*self);
        }
        self.rowid = self.rowid + 1;
    }

    /// Whether the cursor has moved past the last row.
    pub fn eof(&self) -> (r: bool)
        ensures
            r == (self.position() >= self.keys().len()),
    {
        proof {
            use_type_invariant(self);
        }
        self.rowid as u64 >= self.keys.len() as u64
    }

    /// What stands in a column of the row: the name in the first column, and
    /// nothing in any other.
    pub fn column(&self, i: i32) -> (r: Option<String>)
        requires
            self.position() < self.keys().len(),
        ensures
            match r {
                Some(name) => i == 0 && name@ == self.keys()[self.position()],
                None => i != 0,
            },
    {
        proof {
            use_type_invariant(self);
        }
        let count = self.keys.len();
        assert(self.keys().len() == count);
        let place = self.rowid as usize;
        let key = &self.keys[place];
        assert(self.keys()[place as int] == key@);
        match column(i) {
            Some(Columns::Name) => Some(key.clone()),
            Some(Columns::Options) => None,
            None => None,
        }
    }

    /// The number of the row that the cursor stands on.
    pub fn rowid(&self) -> (r: i64)
        ensures
            r == self.position(),
    {
        self.rowid
    }
}

} // verus!
