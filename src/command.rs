use vstd::prelude::*;

verus! {

/// Number of rows `head` shows when the caller gives no count.
pub const DEFAULT_HEAD_ROWS: usize = 5;

/// Show the first rows of a dataset.
pub struct HeadOpts {
    pub name: String,
    pub n: Option<usize>,
}

/// List the registered datasets.
pub struct ListOpts;

/// Show the columns of a dataset.
pub struct SchemaOpts {
    pub name: String,
}

/// Compute summary statistics of a dataset.
pub struct DescribeOpts {
    pub name: String,
}

/// Run an arbitrary query.
pub struct SqlOpts {
    pub query: String,
}

/// Compression of a file-backed dataset.
#[derive(Clone, Copy, Debug, PartialEq, Eq, Structural)]
pub enum Compression {
    Uncompressed,
    Gzip,
    Bzip2,
    Xz,
    Zstd,
}

/// Where a file-backed dataset lives and how to read it.
pub struct FileOpts {
    pub filename: String,
    pub ext: String,
    pub compression: Compression,
}

/// The source of a dataset to register.
pub enum DatasetConn {
    Postgres(String),
    Csv(FileOpts),
    Parquet(String),
    NdJson(FileOpts),
}

/// Register a dataset under a name.
pub struct ConnectOpts {
    pub conn: DatasetConn,
    pub name: String,
}

/// The closed set of commands a producer can submit.
pub enum ReplCommand {
    Connect(ConnectOpts),
    List(ListOpts),
    Schema(SchemaOpts),
    Describe(DescribeOpts),
    Head(HeadOpts),
    Sql(SqlOpts),
}

impl HeadOpts {
    pub fn new(name: String, n: Option<usize>) -> (r: Self)
        requires
            name@.len() > 0,
        ensures
            r.name@ == name@,
            r.n == n,
    {
        HeadOpts { name, n }
    }

    /// The row count actually requested: the given one, else the default.
    pub open spec fn spec_rows(&self) -> usize {
        match self.n {
            Some(k) => k,
            None => DEFAULT_HEAD_ROWS,
        }
    }

    pub fn rows(&self) -> (r: usize)
        ensures
            r == self.spec_rows(),
    {
        match self.n {
            Some(k) => k,
            None => DEFAULT_HEAD_ROWS,
        }
    }
}

impl SchemaOpts {
    pub fn new(name: String) -> (r: Self)
        requires
            name@.len() > 0,
        ensures
            r.name@ == name@,
    {
        SchemaOpts { name }
    }
}

impl DescribeOpts {
    pub fn new(name: String) -> (r: Self)
        requires
            name@.len() > 0,
        ensures
            r.name@ == name@,
    {
        DescribeOpts { name }
    }
}

impl SqlOpts {
    pub fn new(query: String) -> (r: Self)
        requires
            query@.len() > 0,
        ensures
            r.query@ == query@,
    {
        SqlOpts { query }
    }
}

impl FileOpts {
    pub fn new(filename: String, ext: String, compression: Compression) -> (r: Self)
        ensures
            r.filename@ == filename@,
            r.ext@ == ext@,
            r.compression == compression,
    {
        FileOpts { filename, ext, compression }
    }
}

impl ConnectOpts {
    pub fn new(conn: DatasetConn, name: String) -> (r: Self)
        requires
            name@.len() > 0,
        ensures
            r.conn == conn,
            r.name@ == name@,
    {
        ConnectOpts { conn, name }
    }
}

} // verus!
