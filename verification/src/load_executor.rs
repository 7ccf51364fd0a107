//! Connector dispatch: binds a parsed datasource (provider token, connection
//! URL, preview features) to a connector identity and wraps it in an
//! executor with the per-dialect transaction policy.

use vstd::prelude::*;
use vstd::string::StringExecFns;

use crate::error::CoreError;

verus! {

/// A parsed datasource; the dispatcher reads its active provider token.
#[derive(Debug)]
pub struct Datasource {
    pub active_provider: String,
}

/// Opt-in preview features, as a bitset. The dispatcher hands them through
/// to the connector factories unchanged.
#[derive(Clone, Copy, Debug, PartialEq, Eq, Structural)]
pub struct PreviewFeatures {
    pub bits: u64,
}

/// The identity of the connector an executor was built around.
#[derive(Clone, Copy, Debug, PartialEq, Eq, Structural)]
pub enum ConnectorKind {
    Sqlite,
    Mysql,
    Postgres,
    Mssql,
    Mongo,
}

/// The interpreting executor: a connector together with the transaction
/// policy. Under `force_transactions` every logical operation is wrapped in
/// an explicit transaction, as transaction-pooling proxies require.
#[derive(Clone, Copy, Debug, PartialEq, Eq, Structural)]
pub struct QueryExecutor {
    pub connector: ConnectorKind,
    pub force_transactions: bool,
}

/// Whether `url::Url::parse` accepts the string.
pub uninterp spec fn url_parse_ok(s: Seq<char>) -> bool;

/// The decoded query pairs of the URL written in the string.
pub uninterp spec fn url_query_pairs(s: Seq<char>) -> Seq<(Seq<char>, Seq<char>)>;

/// The views of a vector of string pairs.
pub open spec fn pairs_view(v: Seq<(String, String)>) -> Seq<(Seq<char>, Seq<char>)> {
    v.map_values(|p: (String, String)| (p.0@, p.1@))
}

/// Relies on url::Url::parse and url::Url::query_pairs: whether a string
/// parses as a URL, and the decoded query pairs of the parsed URL, depend on
/// the string alone.
#[verifier::external_body]
fn parse_url_query_pairs(s: &str) -> (r: Result<Vec<(String, String)>, String>)
    ensures
        r is Ok <==> url_parse_ok(s@),
        r matches Ok(v) ==> pairs_view(v@) == url_query_pairs(s@),
{
    match url::Url::parse(s) {
        Ok(u) => Ok(u.query_pairs().into_owned().collect()),
        Err(e) => Err(format!("{e}")),
    }
}

/// The value of the last query pair carrying the given key; with duplicate
/// keys the later pair wins.
pub open spec fn last_value_of(
    pairs: Seq<(Seq<char>, Seq<char>)>,
    key: Seq<char>,
) -> Option<Seq<char>>
    decreases pairs.len(),
{
    if pairs.len() == 0 {
        None
    } else if pairs.last().0 == key {
        Some(pairs.last().1)
    } else {
        last_value_of(pairs.drop_last(), key)
    }
}

/// Whether a `pgbouncer` flag value reads as true: `true` or `1`; any other
/// value, and an absent flag, read as false.
pub open spec fn flag_is_true(v: Seq<char>) -> bool {
    v == "true"@ || v == "1"@
}

/// Whether the query pairs of a connection URL demand forced transactions.
pub open spec fn spec_pgbouncer(pairs: Seq<(Seq<char>, Seq<char>)>) -> bool {
    match last_value_of(pairs, "pgbouncer"@) {
        Some(v) => flag_is_true(v),
        None => false,
    }
}

/// Decides equality of a string with a literal at the level of views.
fn string_eq_lit(a: &String, b: &str) -> (r: bool)
    ensures
        r == (a@ == b@),
{
    let owned: String = b.to_owned();
    *a == owned
}

/// Reads the `pgbouncer` flag out of decoded query pairs: the last
/// `pgbouncer` pair wins, and only `true` and `1` switch it on.
pub fn pgbouncer_flag(pairs: &Vec<(String, String)>) -> (r: bool)
    ensures
        r == spec_pgbouncer(pairs_view(pairs@)),
{
    proof {
        assert(pairs_view(pairs@.take(0)) =~= pairs_view(pairs@).take(0));
        assert(pairs_view(pairs@.take(0)).len() == 0);
    }
    let mut i: usize = 0;
    let mut flag: bool = false;
    while i < pairs.len()
        invariant
            i <= pairs.len(),
            flag == spec_pgbouncer(pairs_view(pairs@.take(i as int))),
        decreases pairs.len() - i,
    {
        let (k, v) = &pairs[i];
        if string_eq_lit(k, "pgbouncer") {
            flag = string_eq_lit(v, "true") || string_eq_lit(v, "1");
        }
        proof {
            let pv = pairs_view(pairs@.take(i as int + 1));
            assert(pv.drop_last() =~= pairs_view(pairs@.take(i as int)));
            assert(pv.last() == (pairs@[i as int].0@, pairs@[i as int].1@));
        }
        i += 1;
    }
    proof {
        assert(pairs@.take(pairs@.len() as int) =~= pairs@);
    }
    flag
}

/// Wraps a connector in the interpreting executor with the given transaction
/// policy.
pub fn executor_for(connector: ConnectorKind, force_transactions: bool) -> (r: QueryExecutor)
    ensures
        r == (QueryExecutor { connector, force_transactions }),
{
    QueryExecutor { connector, force_transactions }
}

/// Builds the SQLite executor; SQLite never forces transactions.
pub fn sqlite(_source: &Datasource, _url: &str, _features: PreviewFeatures) -> (r: Result<
    QueryExecutor,
    CoreError,
>)
    ensures
        r matches Ok(e) && e == (QueryExecutor {
            connector: ConnectorKind::Sqlite,
            force_transactions: false,
        }),
{
    Ok(executor_for(ConnectorKind::Sqlite, false))
}

/// Builds the MySQL executor; MySQL never forces transactions.
pub fn mysql(_source: &Datasource, _url: &str, _features: PreviewFeatures) -> (r: Result<
    QueryExecutor,
    CoreError,
>)
    ensures
        r matches Ok(e) && e == (QueryExecutor {
            connector: ConnectorKind::Mysql,
            force_transactions: false,
        }),
{
    Ok(executor_for(ConnectorKind::Mysql, false))
}

/// Builds the SQL Server executor; it never forces transactions.
pub fn mssql(_source: &Datasource, _url: &str, _features: PreviewFeatures) -> (r: Result<
    QueryExecutor,
    CoreError,
>)
    ensures
        r matches Ok(e) && e == (QueryExecutor {
            connector: ConnectorKind::Mssql,
            force_transactions: false,
        }),
{
    Ok(executor_for(ConnectorKind::Mssql, false))
}

/// Builds the MongoDB executor; it never forces transactions.
pub fn mongodb(_source: &Datasource, _url: &str, _features: PreviewFeatures) -> (r: Result<
    QueryExecutor,
    CoreError,
>)
    ensures
        r matches Ok(e) && e == (QueryExecutor {
            connector: ConnectorKind::Mongo,
            force_transactions: false,
        }),
{
    Ok(executor_for(ConnectorKind::Mongo, false))
}

/// Builds the Postgres executor. The connection URL is parsed; a `pgbouncer`
/// query flag that reads as true switches the executor to forced
/// transactions, and an unparseable URL is a configuration error.
pub fn postgres(_source: &Datasource, url: &str, _features: PreviewFeatures) -> (r: Result<
    QueryExecutor,
    CoreError,
>)
    ensures
        url_parse_ok(url@) ==> (r matches Ok(e) && e == (QueryExecutor {
            connector: ConnectorKind::Postgres,
            force_transactions: spec_pgbouncer(url_query_pairs(url@)),
        })),
        !url_parse_ok(url@) ==> (r matches Err(err) && err matches CoreError::ConfigurationError(m)
            && exists|tail: Seq<char>| m@ == "Error parsing connection string: "@ + tail),
{
    match parse_url_query_pairs(url) {
        Ok(pairs) => {
            let force_transactions = pgbouncer_flag(&pairs);
            Ok(executor_for(ConnectorKind::Postgres, force_transactions))
        },
        Err(e) => {
            let msg = String::from_str("Error parsing connection string: ").concat(e.as_str());
            proof {
                assert(msg@ == "Error parsing connection string: "@ + e@);
            }
            Err(CoreError::ConfigurationError(msg))
        },
    }
}

/// The provider tokens the Postgres connector serves: `postgresql`, its
/// alias `postgres`, and `cockroachdb`, which dispatches to the Postgres
/// connector.
pub open spec fn is_postgres_provider(p: Seq<char>) -> bool {
    p == "postgresql"@ || p == "postgres"@ || p == "cockroachdb"@
}

/// The compiled-in provider token set.
pub open spec fn provider_known(p: Seq<char>) -> bool {
    p == "sqlite"@ || p == "mysql"@ || is_postgres_provider(p) || p == "sqlserver"@ || p
        == "mongodb"@
}

/// Loads a query executor for the datasource: the provider token selects the
/// connector, Postgres reads its transaction policy out of the URL, and an
/// unknown token is a configuration error carrying that token.
pub fn load(source: &Datasource, features: PreviewFeatures, url: &str) -> (r: Result<
    QueryExecutor,
    CoreError,
>)
    ensures
        source.active_provider@ == "sqlite"@ ==> (r matches Ok(e) && e == (QueryExecutor {
            connector: ConnectorKind::Sqlite,
            force_transactions: false,
        })),
        source.active_provider@ == "mysql"@ ==> (r matches Ok(e) && e == (QueryExecutor {
            connector: ConnectorKind::Mysql,
            force_transactions: false,
        })),
        source.active_provider@ == "sqlserver"@ ==> (r matches Ok(e) && e == (QueryExecutor {
            connector: ConnectorKind::Mssql,
            force_transactions: false,
        })),
        source.active_provider@ == "mongodb"@ ==> (r matches Ok(e) && e == (QueryExecutor {
            connector: ConnectorKind::Mongo,
            force_transactions: false,
        })),
        is_postgres_provider(source.active_provider@) && url_parse_ok(url@) ==> (r matches Ok(e)
            && e == (QueryExecutor {
            connector: ConnectorKind::Postgres,
            force_transactions: spec_pgbouncer(url_query_pairs(url@)),
        })),
        is_postgres_provider(source.active_provider@) && !url_parse_ok(url@) ==> (r matches Err(
            err,
        ) && err matches CoreError::ConfigurationError(m) && exists|tail: Seq<char>|
            m@ == "Error parsing connection string: "@ + tail),
        !provider_known(source.active_provider@) ==> (r matches Err(err) && err matches CoreError::ConfigurationError(
            m,
        ) && m@ == "Unsupported connector type: "@ + source.active_provider@),
{
    // The provider tokens have pairwise distinct lengths, so revealing them
    // decides every comparison below.
    proof {
        reveal_strlit("sqlite");
        reveal_strlit("mysql");
        reveal_strlit("postgresql");
        reveal_strlit("postgres");
        reveal_strlit("sqlserver");
        reveal_strlit("cockroachdb");
        reveal_strlit("mongodb");
        assert("sqlite"@.len() == 6);
        assert("mysql"@.len() == 5);
        assert("postgresql"@.len() == 10);
        assert("postgres"@.len() == 8);
        assert("sqlserver"@.len() == 9);
        assert("cockroachdb"@.len() == 11);
        assert("mongodb"@.len() == 7);
    }
    let p = &source.active_provider;
    if string_eq_lit(p, "sqlite") {
        sqlite(source, url, features)
    } else if string_eq_lit(p, "mysql") {
        mysql(source, url, features)
    } else if string_eq_lit(p, "postgresql") || string_eq_lit(p, "postgres") {
        postgres(source, url, features)
    } else if string_eq_lit(p, "sqlserver") {
        mssql(source, url, features)
    } else if string_eq_lit(p, "cockroachdb") {
        postgres(source, url, features)
    } else if string_eq_lit(p, "mongodb") {
        mongodb(source, url, features)
    } else {
        let msg = String::from_str("Unsupported connector type: ").concat(p.as_str());
        Err(CoreError::ConfigurationError(msg))
    }
}

} // verus!
