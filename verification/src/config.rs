//! The session configuration: the connection settings and the exchange list,
//! in the durable form the file holds and the in-session form the engine
//! works on.
//!
//! Reading and writing the file itself happens outside the crate; the two
//! conversions and the connection address derived from the settings are
//! verified here.

use vstd::prelude::*;

use crate::exchange_options::ExchangeOptions;
use crate::exchange_options::ExchangeOptionsSer;
use crate::strutil::push_dec;
use crate::strutil::spec_dec;

verus! {

/// The configuration as the file holds it.
pub struct ConfigSer {
    pub host: String,
    pub port: u64,
    pub username: String,
    pub password: String,
    pub pfx_path: Option<String>,
    pub pem_file: Option<String>,
    pub domain: Option<String>,
    pub items: Vec<ExchangeOptionsSer>,
    pub protocol: Option<String>,
}

/// The configuration during a session: the same settings, the exchange list
/// with identifiers and selection states, and the path the file was read
/// from.
pub struct Config {
    pub host: String,
    pub port: u64,
    pub username: String,
    pub password: String,
    pub pfx_path: Option<String>,
    pub pem_file: Option<String>,
    pub domain: Option<String>,
    pub items: Vec<ExchangeOptions>,
    pub path: String,
    pub protocol: String,
}

/// The view of an optional text, for relating the two configuration forms.
pub open spec fn opt_seq(o: Option<String>) -> Option<Seq<char>> {
    match o {
        Some(s) => Some(s@),
        None => None,
    }
}

impl Config {
    /// Builds the session configuration from the file's form: every exchange
    /// gets a fresh identifier — its position in the list, so identifiers are
    /// unique and never reused — and starts `Unselected`; an absent protocol
    /// reads as `amqp`.
    pub fn read_config(ser: ConfigSer, path: String) -> (r: Config)
        ensures
            r.host == ser.host,
            r.port == ser.port,
            r.username == ser.username,
            r.password == ser.password,
            r.pfx_path == ser.pfx_path,
            r.pem_file == ser.pem_file,
            r.domain == ser.domain,
            r.path == path,
            opt_seq(ser.protocol) matches Some(p) ==> r.protocol@ == p,
            ser.protocol is None ==> r.protocol@ == "amqp"@,
            r.items@.len() == ser.items@.len(),
            forall|i: int|
                0 <= i < r.items@.len() ==> (#[trigger] r.items@[i]).spec_from_ser(
                    ser.items@[i],
                    i as u64,
                ),
    {
        let ConfigSer { host, port, username, password, pfx_path, pem_file, domain, items, protocol } =
            ser;
        let mut exchanges: Vec<ExchangeOptions> = Vec::new();
        let ghost items_view = items@;
        let mut rest = items;
        // drain the durable records front to back, numbering them by position
        while rest.len() > 0
            invariant
                exchanges@.len() <= items_view.len(),
                rest@ == items_view.skip(exchanges@.len() as int),
                forall|i: int|
                    0 <= i < exchanges@.len() ==> (#[trigger] exchanges@[i]).spec_from_ser(
                        items_view[i],
                        i as u64,
                    ),
            decreases rest@.len(),
        {
            let first = rest.remove(0);
            let id = exchanges.len();
            let exchange = ExchangeOptions::from_ser(first, id as u64);
            exchanges.push(exchange);
            proof {
                assert(rest@ =~= items_view.skip(exchanges@.len() as int));
            }
        }
        Config {
            host,
            port,
            username,
            password,
            pfx_path,
            pem_file,
            domain,
            items: exchanges,
            path,
            protocol: match protocol {
                Some(p) => p,
                None => {
                    let p = "amqp".to_owned();
                    p
                },
            },
        }
    }

    /// The durable form of the session configuration: the exchange list
    /// written back without identifiers or selection states, empty optional
    /// texts written as absent.
    pub fn save_config(&self) -> (r: ConfigSer)
        ensures
            r.host == self.host,
            r.port == self.port,
            r.username == self.username,
            r.password == self.password,
            r.pfx_path == self.pfx_path,
            r.pem_file == self.pem_file,
            r.domain == self.domain,
            opt_seq(r.protocol) == Some(self.protocol@),
            r.items@.len() == self.items@.len(),
            forall|i: int|
                0 <= i < r.items@.len() ==> (#[trigger] r.items@[i]).matches_saved(self.items@[i]),
    {
        let mut exchanges_ser: Vec<ExchangeOptionsSer> = Vec::new();
        let n = self.items.len();
        let mut i: usize = 0;
        while i < n
            invariant
                n == self.items@.len(),
                i == exchanges_ser@.len(),
                i <= n,
                forall|j: int|
                    0 <= j < i ==> (#[trigger] exchanges_ser@[j]).matches_saved(self.items@[j]),
            decreases n - i,
        {
            let ser = self.items[i].to_ser();
            exchanges_ser.push(ser);
            i = i + 1;
        }
        ConfigSer {
            host: self.host.clone(),
            port: self.port,
            username: self.username.clone(),
            password: self.password.clone(),
            pfx_path: self.pfx_path.clone(),
            pem_file: self.pem_file.clone(),
            domain: self.domain.clone(),
            items: exchanges_ser,
            protocol: Some(self.protocol.clone()),
        }
    }

    /// Whether the session connects over TLS with a client identity: both
    /// the identity bundle and the trusted-root file must be configured.
    pub fn uses_tls(&self) -> (r: bool)
        ensures
            r == (self.pfx_path is Some && self.pem_file is Some),
    {
        self.pfx_path.is_some() && self.pem_file.is_some()
    }

    /// The plain connection address:
    /// `amqp://<username>:<password>@<host>:<port>`.
    pub fn connection_url(&self) -> (r: String)
        ensures
            r@ == "amqp://"@ + self.username@ + ":"@ + self.password@ + "@"@ + self.host@ + ":"@
                + spec_dec(self.port as nat),
    {
        let mut s = String::new();
        s.append("amqp://");
        s.append(self.username.as_str());
        s.append(":");
        s.append(self.password.as_str());
        s.append("@");
        s.append(self.host.as_str());
        s.append(":");
        push_dec(&mut s, self.port);
        proof {
            assert(s@ =~= "amqp://"@ + self.username@ + ":"@ + self.password@ + "@"@ + self.host@
                + ":"@ + spec_dec(self.port as nat));
        }
        s
    }
}

} // verus!
