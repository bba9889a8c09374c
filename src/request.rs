use vstd::prelude::*;
use crate::command::{
    ConnectOpts, DatasetConn, DescribeOpts, FileOpts, HeadOpts, ListOpts, ReplCommand, SchemaOpts,
    SqlOpts,
};
use crate::query::{
    head_query, head_text, list_query, list_text, schema_query, schema_text, select_all_query,
    select_all_text,
};

verus! {

/// One operation for the engine to perform on behalf of a command.
pub enum Request {
    /// Nothing to run: the source kind is not supported; the text is reported
    /// as the command's result.
    Notice(String),
    /// Register a delimited-text file under a name.
    RegisterCsv(String, FileOpts),
    /// Register a columnar file under a name.
    RegisterParquet(String, String),
    /// Register a line-delimited structured-text file under a name.
    RegisterNdJson(String, FileOpts),
    /// Run a query and render its rows.
    Query(String),
    /// Run a query and render summary statistics of its columns.
    Describe(String),
}

/// What is reported for a source kind that cannot be registered.
pub open spec fn unsupported_text() -> Seq<char> {
    "Postgres connection is not supported yet"@
}

pub open spec fn is_query(r: Request, text: Seq<char>) -> bool {
    r is Query && r->Query_0@ == text
}

/// The request that carries out a command.
pub open spec fn request_for(cmd: ReplCommand, r: Request) -> bool {
    match cmd {
        ReplCommand::Connect(c) => connect_request_for(c, r),
        ReplCommand::List(_) => is_query(r, list_text()),
        ReplCommand::Schema(s) => is_query(r, schema_text(s.name@)),
        ReplCommand::Describe(d) => r is Describe && r->Describe_0@ == select_all_text(d.name@),
        ReplCommand::Head(h) => is_query(r, head_text(h.name@, h.spec_rows() as nat)),
        ReplCommand::Sql(q) => is_query(r, q.query@),
    }
}

pub open spec fn connect_request_for(c: ConnectOpts, r: Request) -> bool {
    match c.conn {
        DatasetConn::Postgres(_) => r is Notice && r->Notice_0@ == unsupported_text(),
        DatasetConn::Csv(f) => r == Request::RegisterCsv(c.name, f),
        DatasetConn::Parquet(p) => r == Request::RegisterParquet(c.name, p),
        DatasetConn::NdJson(f) => r == Request::RegisterNdJson(c.name, f),
    }
}

impl ConnectOpts {
    pub fn request(self) -> (r: Request)
        ensures
            connect_request_for(self, r),
    {
        match self.conn {
            DatasetConn::Postgres(_) => Request::Notice(
                String::from_str("Postgres connection is not supported yet"),
            ),
            DatasetConn::Csv(f) => Request::RegisterCsv(self.name, f),
            DatasetConn::Parquet(p) => Request::RegisterParquet(self.name, p),
            DatasetConn::NdJson(f) => Request::RegisterNdJson(self.name, f),
        }
    }
}

impl ListOpts {
    pub fn request(self) -> (r: Request)
        ensures
            is_query(r, list_text()),
    {
        Request::Query(list_query())
    }
}

impl SchemaOpts {
    pub fn request(self) -> (r: Request)
        ensures
            is_query(r, schema_text(self.name@)),
    {
        Request::Query(schema_query(self.name.as_str()))
    }
}

impl DescribeOpts {
    pub fn request(self) -> (r: Request)
        ensures
            r is Describe && r->Describe_0@ == select_all_text(self.name@),
    {
        Request::Describe(select_all_query(self.name.as_str()))
    }
}

impl HeadOpts {
    pub fn request(self) -> (r: Request)
        ensures
            is_query(r, head_text(self.name@, self.spec_rows() as nat)),
    {
        let n = self.rows();
        Request::Query(head_query(self.name.as_str(), n))
    }
}

impl SqlOpts {
    pub fn request(self) -> (r: Request)
        ensures
            is_query(r, self.query@),
    {
        Request::Query(self.query)
    }
}

impl ReplCommand {
    /// The request that carries out this command, chosen per variant.
    pub fn request(self) -> (r: Request)
        ensures
            request_for(self, r),
    {
        match self {
            ReplCommand::Connect(c) => c.request(),
            ReplCommand::List(l) => l.request(),
            ReplCommand::Schema(s) => s.request(),
            ReplCommand::Describe(d) => d.request(),
            ReplCommand::Head(h) => h.request(),
            ReplCommand::Sql(q) => q.request(),
        }
    }
}

/// Without a row count, `head` asks the engine for the first five rows.
pub proof fn lemma_head_default_rows(h: HeadOpts)
    requires
        h.n is None,
    ensures
        h.spec_rows() == 5,
        head_text(h.name@, h.spec_rows() as nat) == "SELECT * FROM "@ + h.name@ + " LIMIT 5"@,
{
    reveal_strlit("5");
    reveal_strlit(" LIMIT ");
    reveal_strlit(" LIMIT 5");
    let front = "SELECT * FROM "@ + h.name@;
    assert(crate::query::decimal(5) =~= "5"@);
    assert(front + " LIMIT "@ + "5"@ =~= front + " LIMIT 5"@);
}

} // verus!
