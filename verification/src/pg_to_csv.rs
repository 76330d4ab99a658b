//! The export job's pure parts: the connection string built from the
//! request parameters, the qualified table name, and the scanner that
//! counts data rows in a stream of CSV bytes. The database traffic, the
//! compression and the file writing stay with the surrounding process.

use vstd::prelude::*;

use crate::text::dec_of;

verus! {

/// Tuning options of one export run.
#[derive(Clone, Debug)]
pub struct CsvExportOptions {
    pub gzip: bool,
    pub buf_size_bytes: usize,
    pub partitions: usize,
    pub rows_per_query: Option<usize>,
}

impl Default for CsvExportOptions {
    /// No compression, a 32 MiB buffer, one partition, no row limit.
    fn default() -> (r: Self)
        ensures
            !r.gzip,
            r.buf_size_bytes == 0x2000000,
            r.partitions == 1,
            r.rows_per_query is None,
    {
        CsvExportOptions {
            gzip: false,
            buf_size_bytes: 0x2000000,
            partitions: 1,
            rows_per_query: None,
        }
    }
}

/// The request body of an export job.
#[derive(Clone, Debug)]
pub struct PgExportJsonParams {
    pub host: String,
    pub port: String,
    pub username: String,
    pub password: String,
    pub dbname: String,
    pub table_name: String,
    pub current_schema: Option<String>,
    pub output_file_path: String,
    pub gzip: Option<bool>,
    pub buf_size_bytes: Option<usize>,
    pub partitions: Option<usize>,
    pub rows_per_query: Option<usize>,
    pub sslmode: Option<String>,
    pub connect_timeout: Option<u64>,
    pub hostaddr: Option<String>,
    pub dsn: Option<String>,
}

/// Specification view of [`PgExportJsonParams`].
pub struct PgExportJsonParamsS {
    pub host: Seq<char>,
    pub port: Seq<char>,
    pub username: Seq<char>,
    pub password: Seq<char>,
    pub dbname: Seq<char>,
    pub table_name: Seq<char>,
    pub current_schema: Option<Seq<char>>,
    pub sslmode: Option<Seq<char>>,
    pub connect_timeout: Option<u64>,
    pub hostaddr: Option<Seq<char>>,
    pub dsn: Option<Seq<char>>,
}

impl View for PgExportJsonParams {
    type V = PgExportJsonParamsS;

    open spec fn view(&self) -> PgExportJsonParamsS {
        PgExportJsonParamsS {
            host: self.host@,
            port: self.port@,
            username: self.username@,
            password: self.password@,
            dbname: self.dbname@,
            table_name: self.table_name@,
            current_schema: match self.current_schema {
                Some(s) => Some(s@),
                None => None,
            },
            sslmode: match self.sslmode {
                Some(s) => Some(s@),
                None => None,
            },
            connect_timeout: self.connect_timeout,
            hostaddr: match self.hostaddr {
                Some(s) => Some(s@),
                None => None,
            },
            dsn: match self.dsn {
                Some(s) => Some(s@),
                None => None,
            },
        }
    }
}

/// The space-separated parts of the connection string.
pub open spec fn dsn_parts(p: PgExportJsonParamsS) -> Seq<Seq<char>> {
    let parts = Seq::<Seq<char>>::empty();
    let parts = if p.host.len() > 0 {
        parts.push("host="@ + p.host)
    } else {
        parts
    };
    let parts = match p.hostaddr {
        Some(h) => {
            if h.len() > 0 {
                parts.push("hostaddr="@ + h)
            } else if p.host == "localhost"@ {
                parts.push("hostaddr=127.0.0.1"@)
            } else {
                parts
            }
        },
        None => {
            if p.host == "localhost"@ {
                parts.push("hostaddr=127.0.0.1"@)
            } else {
                parts
            }
        },
    };
    let parts = if p.port.len() > 0 {
        parts.push("port="@ + p.port)
    } else {
        parts
    };
    let parts = if p.username.len() > 0 {
        parts.push("user="@ + p.username)
    } else {
        parts
    };
    let parts = if p.password.len() > 0 {
        parts.push("password="@ + p.password)
    } else {
        parts
    };
    let parts = if p.dbname.len() > 0 {
        parts.push("dbname="@ + p.dbname)
    } else {
        parts
    };
    let parts = parts.push(
        "sslmode="@ + match p.sslmode {
            Some(m) => m,
            None => "disable"@,
        },
    );
    parts.push(
        "connect_timeout="@ + dec_of(
            match p.connect_timeout {
                Some(t) => t as nat,
                None => 10 as nat,
            },
        ),
    )
}

/// The parts from `i` on, each preceded by one space.
pub open spec fn join_tail(parts: Seq<Seq<char>>, i: int) -> Seq<char>
    decreases parts.len() - i,
{
    if !(0 <= i && i < parts.len()) {
        Seq::empty()
    } else {
        " "@ + parts[i] + join_tail(parts, i + 1)
    }
}

/// The parts joined by single spaces.
pub open spec fn join_spaces(parts: Seq<Seq<char>>) -> Seq<char> {
    if parts.len() == 0 {
        Seq::empty()
    } else {
        parts[0] + join_tail(parts, 1)
    }
}

/// The connection string: an explicit non-empty `dsn` verbatim, otherwise
/// the key-value parts joined by spaces.
pub open spec fn spec_dsn(p: PgExportJsonParamsS) -> Seq<char> {
    match p.dsn {
        Some(d) => {
            if d.len() > 0 {
                d
            } else {
                join_spaces(dsn_parts(p))
            }
        },
        None => join_spaces(dsn_parts(p)),
    }
}

/// The views of the part list.
pub open spec fn parts_view(v: Seq<String>) -> Seq<Seq<char>> {
    Seq::new(v.len(), |k: int| v[k]@)
}

/// One `key=value` part.
fn part_kv(key: &str, value: &str) -> (r: String)
    ensures
        r@ == key@ + value@,
{
    String::from_str(key).concat(value)
}

/// Joins the parts with single spaces, starting at `i`.
fn join_tail_x(parts: &Vec<String>, i: usize) -> (r: String)
    requires
        i <= parts@.len(),
    ensures
        r@ == join_tail(parts_view(parts@), i as int),
    decreases parts@.len() - i,
{
    let ghost pv = parts_view(parts@);
    if i >= parts.len() {
        let r = String::new();
        proof {
            assert(r@ =~= join_tail(pv, i as int));
        }
        r
    } else {
        let rest = join_tail_x(parts, i + 1);
        proof {
            assert(pv[i as int] == parts@[i as int]@);
        }
        String::from_str(" ").concat(parts[i].as_str()).concat(rest.as_str())
    }
}

/// Builds the connection string from the request parameters.
#[verifier::rlimit(60)]
pub fn build_dsn_from_json(p: &PgExportJsonParams) -> (r: String)
    ensures
        r@ == spec_dsn(p@),
{
    match &p.dsn {
        Some(d) => {
            if !d.as_str().is_empty() {
                return d.clone();
            }
        },
        None => {},
    }
    let ghost mut gp: Seq<Seq<char>> = Seq::empty();
    let mut parts: Vec<String> = Vec::new();
    if !p.host.as_str().is_empty() {
        parts.push(part_kv("host=", p.host.as_str()));
        proof {
            gp = gp.push("host="@ + p.host@);
            assert(parts_view(parts@) =~= gp);
        }
    }
    let mut pushed_hostaddr = false;
    match &p.hostaddr {
        Some(h) => {
            if !h.as_str().is_empty() {
                parts.push(part_kv("hostaddr=", h.as_str()));
                proof {
                    gp = gp.push("hostaddr="@ + h@);
                    assert(parts_view(parts@) =~= gp);
                }
                pushed_hostaddr = true;
            }
        },
        None => {},
    }
    if !pushed_hostaddr {
        if crate::protocol::chars_eq_lit(&crate::text::str_to_chars(p.host.as_str()),
            "localhost") {
            parts.push(String::from_str("hostaddr=127.0.0.1"));
            proof {
                gp = gp.push("hostaddr=127.0.0.1"@);
                assert(parts_view(parts@) =~= gp);
            }
        }
    }
    if !p.port.as_str().is_empty() {
        parts.push(part_kv("port=", p.port.as_str()));
        proof {
            gp = gp.push("port="@ + p.port@);
            assert(parts_view(parts@) =~= gp);
        }
    }
    if !p.username.as_str().is_empty() {
        parts.push(part_kv("user=", p.username.as_str()));
        proof {
            gp = gp.push("user="@ + p.username@);
            assert(parts_view(parts@) =~= gp);
        }
    }
    if !p.password.as_str().is_empty() {
        parts.push(part_kv("password=", p.password.as_str()));
        proof {
            gp = gp.push("password="@ + p.password@);
            assert(parts_view(parts@) =~= gp);
        }
    }
    if !p.dbname.as_str().is_empty() {
        parts.push(part_kv("dbname=", p.dbname.as_str()));
        proof {
            gp = gp.push("dbname="@ + p.dbname@);
            assert(parts_view(parts@) =~= gp);
        }
    }
    match &p.sslmode {
        Some(m) => {
            parts.push(part_kv("sslmode=", m.as_str()));
            proof {
                gp = gp.push("sslmode="@ + m@);
                assert(parts_view(parts@) =~= gp);
            }
        },
        None => {
            parts.push(String::from_str("sslmode=disable"));
            proof {
                gp = gp.push("sslmode="@ + "disable"@);
                assert("sslmode=disable"@ =~= "sslmode="@ + "disable"@) by {
                    reveal_strlit("sslmode=disable");
                    reveal_strlit("sslmode=");
                    reveal_strlit("disable");
                };
                assert(parts_view(parts@) =~= gp);
            }
        },
    }
    let timeout: u64 = match p.connect_timeout {
        Some(t) => t,
        None => 10,
    };
    let mut tchars: Vec<char> = crate::text::str_to_chars("connect_timeout=");
    crate::text::push_decimal(&mut tchars, timeout);
    parts.push(crate::text::chars_to_string(&tchars));
    proof {
        gp = gp.push(
            "connect_timeout="@ + dec_of(
                match p@.connect_timeout {
                    Some(t) => t as nat,
                    None => 10 as nat,
                },
            ),
        );
        assert(parts_view(parts@) =~= gp);
        assert(gp =~= dsn_parts(p@));
    }
    if parts.len() == 0 {
        proof {
            assert(false);
        }
        unreached()
    } else {
        let head = parts[0].clone();
        let tail = join_tail_x(&parts, 1);
        head.concat(tail.as_str())
    }
}

/// The table reference used in queries: schema-qualified and quoted when a
/// non-empty schema was given, the bare table name otherwise.
pub open spec fn spec_table_full(p: PgExportJsonParamsS) -> Seq<char> {
    match p.current_schema {
        Some(s) => {
            if s.len() > 0 {
                "\""@ + s + "\".\""@ + p.table_name + "\""@
            } else {
                p.table_name
            }
        },
        None => p.table_name,
    }
}

/// Builds the table reference.
pub fn build_table_full(p: &PgExportJsonParams) -> (r: String)
    ensures
        r@ == spec_table_full(p@),
{
    match &p.current_schema {
        Some(s) => {
            if !s.as_str().is_empty() {
                String::from_str("\"").concat(s.as_str()).concat("\".\"").concat(
                    p.table_name.as_str(),
                ).concat("\"")
            } else {
                p.table_name.clone()
            }
        },
        None => p.table_name.clone(),
    }
}

/// One step of the row scanner over one byte: the quote state, the pending
/// closing quote, and whether this byte ends a data row.
pub open spec fn scan_step(in_quotes: bool, pending: bool, b: u8) -> (bool, bool, bool) {
    if pending {
        if b == 34 {
            (in_quotes, false, false)
        } else {
            (false, false, b == 10)
        }
    } else if b == 34 {
        if in_quotes {
            (in_quotes, true, false)
        } else {
            (true, false, false)
        }
    } else if b == 10 {
        (in_quotes, false, !in_quotes)
    } else {
        (in_quotes, false, false)
    }
}

/// The scanner state and row count after the bytes from `i` on.
pub open spec fn scan_chunk(in_quotes: bool, pending: bool, bytes: Seq<u8>, i: int) -> (
    bool,
    bool,
    int,
)
    decreases bytes.len() - i,
{
    if !(0 <= i && i < bytes.len()) {
        (in_quotes, pending, 0)
    } else {
        let (q, p, row) = scan_step(in_quotes, pending, bytes[i]);
        let (q2, p2, rows) = scan_chunk(q, p, bytes, i + 1);
        (q2, p2, rows + if row {
            1int
        } else {
            0int
        })
    }
}

/// Counts complete data rows in a stream of CSV bytes, keeping track of
/// quoted fields across chunk borders: a line break inside a quoted field
/// does not end a row.
#[derive(Debug)]
pub struct CsvRowScanner {
    in_quotes: bool,
    pending_quote: bool,
}

impl CsvRowScanner {
    /// Whether the scanner stands inside a quoted field.
    pub closed spec fn in_quotes(&self) -> bool {
        self.in_quotes
    }

    /// Whether the last byte seen was a quote that may close the field.
    pub closed spec fn pending_quote(&self) -> bool {
        self.pending_quote
    }
}

impl Default for CsvRowScanner {
    /// A scanner outside any quoted field.
    fn default() -> (r: Self)
        ensures
            !r.in_quotes(),
            !r.pending_quote(),
    {
        CsvRowScanner { in_quotes: false, pending_quote: false }
    }
}

impl CsvRowScanner {
    /// Counts the data rows completed within this chunk, carrying the quote
    /// state over to the next one.
    pub fn count_rows_chunk(&mut self, chunk: &[u8]) -> (rows: usize)
        ensures
            ({
                let (q, p, n) = scan_chunk(
                    old(self).in_quotes(),
                    old(self).pending_quote(),
                    chunk@,
                    0,
                );
                &&& final(self).in_quotes() == q
                &&& final(self).pending_quote() == p
                &&& rows as int == n
            }),
    {
        let ghost q0 = self.in_quotes;
        let ghost p0 = self.pending_quote;
        let mut rows: usize = 0;
        let mut i: usize = 0;
        while i < chunk.len()
            invariant
                i <= chunk@.len(),
                rows <= i,
                scan_chunk(q0, p0, chunk@, 0) == ({
                    let (q2, p2, n2) = scan_chunk(self.in_quotes, self.pending_quote, chunk@,
                        i as int);
                    (q2, p2, n2 + rows as int)
                }),
            decreases chunk@.len() - i,
        {
            let b = chunk[i];
            if self.pending_quote {
                if b == 34 {
                    self.pending_quote = false;
                } else {
                    self.in_quotes = false;
                    self.pending_quote = false;
                    if b == 10 {
                        rows = rows + 1;
                    }
                }
            } else if b == 34 {
                if self.in_quotes {
                    self.pending_quote = true;
                } else {
                    self.in_quotes = true;
                }
            } else if b == 10 {
                if !self.in_quotes {
                    rows = rows + 1;
                }
            }
            i = i + 1;
        }
        rows
    }
}

} // verus!
