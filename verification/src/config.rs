//! Server and client configuration.
use vstd::prelude::*;

use crate::tls::{
    certificate_ders, load_certs, load_private_key, pem_certificates, pem_rsa_private_keys,
    TlsFileError,
};

verus! {

/// An IP address, held as its bits, most significant first (the order of
/// `u32::from(Ipv4Addr)` and `u128::from(Ipv6Addr)`).
#[derive(Clone, Copy, Debug, PartialEq, Eq, Structural)]
pub enum IpAddress {
    V4(u32),
    V6(u128),
}

/// An IP address and a port.
#[derive(Clone, Copy, Debug, PartialEq, Eq, Structural)]
pub struct SocketAddress {
    pub ip: IpAddress,
    pub port: u16,
}

impl SocketAddress {
    /// The socket address of `ip` and `port`.
    pub fn new(ip: IpAddress, port: u16) -> (s: SocketAddress)
        ensures
            s.ip == ip,
            s.port == port,
    {
        SocketAddress { ip, port }
    }
}

/// A DER-encoded X.509 certificate.
#[derive(Clone, Debug)]
pub struct Certificate(pub Vec<u8>);

/// A DER-encoded private key.
#[derive(Clone, Debug)]
pub struct PrivateKey(pub Vec<u8>);

/// The port that servers listen on unless configured otherwise.
pub const DEFAULT_LISTEN_PORT: u16 = 9315;

/// The configuration of a server. The fields after `server_ssl_key_file` are derived from
/// the ones before by [`Config::enrich`].
#[derive(Clone, Debug)]
pub struct Config {
    /// The address that TCP and UDP listen on.
    pub server_listen_ip: IpAddress,
    /// The port of TCP, UDP and the multicast groups.
    pub server_listen_port: u16,
    /// The multicast groups that UDP joins (several, to serve IPv4 and IPv6 alike).
    pub server_multicast_groups: Vec<IpAddress>,
    pub server_ssl_cert_file: Option<String>,
    pub server_ssl_key_file: Option<String>,
    pub server_ssl_certs: Vec<Certificate>,
    pub server_ssl_pkey: Option<PrivateKey>,
}

/// The configuration in force when no configuration file is read: listen on every IPv6
/// address (which most systems extend to IPv4) at port 9315, join the unspecified IPv6
/// group, and hold no TLS material.
pub open spec fn is_default_config(c: Config) -> bool {
    &&& c.server_listen_ip == IpAddress::V6(0)
    &&& c.server_listen_port == DEFAULT_LISTEN_PORT
    &&& c.server_multicast_groups@ == seq![IpAddress::V6(0)]
    &&& c.server_ssl_cert_file.is_none()
    &&& c.server_ssl_key_file.is_none()
    &&& c.server_ssl_certs@.len() == 0
    &&& c.server_ssl_pkey.is_none()
}

/// The certificate text, where one is given, is PEM.
pub open spec fn certs_readable(cert_pem: Option<&[u8]>) -> bool {
    match cert_pem {
        Some(p) => pem_certificates(p@).is_some(),
        None => true,
    }
}

/// The key text, where one is given, is PEM holding at least one RSA private key.
pub open spec fn key_readable(key_pem: Option<&[u8]>) -> bool {
    match key_pem {
        Some(p) => pem_rsa_private_keys(p@) matches Some(ks) && ks.len() > 0,
        None => true,
    }
}

/// Why a key text is not readable: it is not PEM, or it holds no RSA private key.
pub open spec fn key_error(key_pem: Option<&[u8]>) -> TlsFileError {
    match key_pem {
        Some(p) => if pem_rsa_private_keys(p@).is_none() {
            TlsFileError::InvalidKey
        } else {
            TlsFileError::MissingKey
        },
        None => TlsFileError::MissingKey,
    }
}

/// `a` and `b` agree on every configured (not derived) field.
pub open spec fn same_settings(a: Config, b: Config) -> bool {
    &&& a.server_listen_ip == b.server_listen_ip
    &&& a.server_listen_port == b.server_listen_port
    &&& a.server_multicast_groups == b.server_multicast_groups
    &&& a.server_ssl_cert_file == b.server_ssl_cert_file
    &&& a.server_ssl_key_file == b.server_ssl_key_file
}

impl Default for Config {
    fn default() -> (c: Config)
        ensures
            is_default_config(c),
            c.server_listen_ip == IpAddress::V6(0),
            c.server_listen_port == 9315,
            c.server_multicast_groups@ == seq![IpAddress::V6(0)],
            c.server_ssl_cert_file.is_none(),
            c.server_ssl_key_file.is_none(),
            c.server_ssl_certs@.len() == 0,
            c.server_ssl_pkey.is_none(),
    {
        let mut groups: Vec<IpAddress> = Vec::new();
        groups.push(IpAddress::V6(0));
        Config {
            server_listen_ip: IpAddress::V6(0),
            server_listen_port: DEFAULT_LISTEN_PORT,
            server_multicast_groups: groups,
            server_ssl_cert_file: None,
            server_ssl_key_file: None,
            server_ssl_certs: Vec::new(),
            server_ssl_pkey: None,
        }
    }
}

impl Config {
    /// Fills the derived fields from the configured ones: `cert_pem` is the text of the file
    /// that `server_ssl_cert_file` names and `key_pem` that of `server_ssl_key_file`, where
    /// they name one. The certificates become `server_ssl_certs` and the first RSA key
    /// `server_ssl_pkey`; a text that is not given leaves its field as it was. On an error
    /// nothing changes.
    pub fn enrich(&mut self, cert_pem: Option<&[u8]>, key_pem: Option<&[u8]>) -> (r: Result<
        (),
        TlsFileError,
    >)
        ensures
            r is Ok <==> certs_readable(cert_pem) && key_readable(key_pem),
            !certs_readable(cert_pem) ==> r == Err::<(), TlsFileError>(TlsFileError::InvalidCert),
            certs_readable(cert_pem) && !key_readable(key_pem) ==> r == Err::<(), TlsFileError>(
                key_error(key_pem),
            ),
            r is Err ==> *final(self) == *old(self),
            r is Ok ==> same_settings(*final(self), *old(self)),
            r is Ok ==> match cert_pem {
                Some(p) => pem_certificates(p@) == Some(
                    certificate_ders(final(self).server_ssl_certs@),
                ),
                None => final(self).server_ssl_certs == old(self).server_ssl_certs,
            },
            r is Ok ==> match key_pem {
                Some(p) => final(self).server_ssl_pkey matches Some(k) && k.0@
                    == pem_rsa_private_keys(p@).unwrap()[0],
                None => final(self).server_ssl_pkey == old(self).server_ssl_pkey,
            },
            r is Ok <==> (match cert_pem {
                Some(p) => pem_certificates(p@) is Some,
                None => true,
            }) && (match key_pem {
                Some(p) => match pem_rsa_private_keys(p@) {
                    Some(ks) => ks.len() >= 1,
                    None => false,
                },
                None => true,
            }),
            match cert_pem {
                Some(p) => match pem_certificates(p@) {
                    Some(ders) => r is Ok ==> final(self).server_ssl_certs@.len() == ders.len()
                        && forall|i: int|
                        0 <= i < ders.len() ==> (#[trigger] final(self).server_ssl_certs@[i]).0@
                            == ders[i],
                    None => r == Err::<(), TlsFileError>(TlsFileError::InvalidCert),
                },
                None => true,
            },
            (match cert_pem {
                Some(p) => pem_certificates(p@) is Some,
                None => true,
            }) ==> match key_pem {
                Some(p) => match pem_rsa_private_keys(p@) {
                    None => r == Err::<(), TlsFileError>(TlsFileError::InvalidKey),
                    Some(ks) => if ks.len() == 0 {
                        r == Err::<(), TlsFileError>(TlsFileError::MissingKey)
                    } else {
                        r is Ok && (final(self).server_ssl_pkey matches Some(k) && k.0@ == ks[0])
                    },
                },
                None => true,
            },
            r is Ok ==> {
                &&& final(self).server_listen_ip == old(self).server_listen_ip
                &&& final(self).server_listen_port == old(self).server_listen_port
                &&& final(self).server_multicast_groups == old(self).server_multicast_groups
                &&& final(self).server_ssl_cert_file == old(self).server_ssl_cert_file
                &&& final(self).server_ssl_key_file == old(self).server_ssl_key_file
            },
    {
        proof {
            law_tls_texts_readable(cert_pem, key_pem);
        }
        let certs = match cert_pem {
            Some(p) => match load_certs(p) {
                Ok(c) => Some(c),
                Err(e) => {
                    return Err(e);
                },
            },
            None => None,
        };
        let key = match key_pem {
            Some(p) => match load_private_key(p) {
                Ok(k) => Some(k),
                Err(e) => {
                    return Err(e);
                },
            },
            None => None,
        };
        if let Some(c) = certs {
            self.server_ssl_certs = c;
        }
        if let Some(k) = key {
            self.server_ssl_pkey = Some(k);
        }
        Ok(())
    }

    /// The socket address that the server listens on.
    pub fn get_listen_socket(&self) -> (s: SocketAddress)
        ensures
            s.ip == self.server_listen_ip,
            s.port == self.server_listen_port,
    {
        SocketAddress::new(self.server_listen_ip, self.server_listen_port)
    }

    /// The configuration that a read ends with: the one read, or the default one when
    /// there was none to read or reading it failed.
    pub fn or_default(loaded: Option<Config>) -> (c: Config)
        ensures
            match loaded {
                Some(l) => c == l,
                None => is_default_config(c),
            },
    {
        match loaded {
            Some(l) => l,
            None => Config::default(),
        }
    }
}

/// The client's command line.
#[derive(Debug)]
pub struct Args {
    /// Open the graphical interface.
    pub open_gui: bool,
    /// Keep the console and print debugging output.
    pub debug: bool,
    /// The address to visit; without it the client opens its graphical interface.
    pub url: Option<String>,
}

impl Default for Args {
    fn default() -> (a: Args)
        ensures
            !a.open_gui,
            !a.debug,
            a.url.is_none(),
    {
        Args { open_gui: false, debug: false, url: None }
    }
}

/// What the client does with its command line.
#[derive(Debug, PartialEq, Eq)]
pub enum ClientMode {
    /// `--open-gui` was given.
    GuiRequested,
    /// Visit the given address from the command line.
    Cli(String),
    /// Neither the flag nor an address: open the graphical interface, as when the
    /// client is started by double-clicking it.
    GuiByDefault,
}

impl Args {
    /// `--open-gui` asks for the graphical interface; otherwise a URL selects the
    /// command-line mode, and without one the graphical interface opens.
    pub fn client_mode(&self) -> (m: ClientMode)
        ensures
            self.open_gui ==> m == ClientMode::GuiRequested,
            !self.open_gui ==> match self.url {
                Some(u) => m matches ClientMode::Cli(v) && v@ == u@,
                None => m == ClientMode::GuiByDefault,
            },
    {
        if self.open_gui {
            ClientMode::GuiRequested
        } else {
            match &self.url {
                Some(u) => ClientMode::Cli(u.clone()),
                None => ClientMode::GuiByDefault,
            }
        }
    }
}

/// A certificate text is readable when it is PEM; a key text when it is PEM holding at
/// least one RSA private key, so that one key suffices. An unreadable key text is not PEM
/// ([`TlsFileError::InvalidKey`]) or holds no RSA key ([`TlsFileError::MissingKey`]).
/// Texts that are not given are always readable.
pub proof fn law_tls_texts_readable(cert_pem: Option<&[u8]>, key_pem: Option<&[u8]>)
    ensures
        certs_readable(cert_pem) <==> match cert_pem {
            Some(p) => pem_certificates(p@) is Some,
            None => true,
        },
        key_readable(key_pem) <==> match key_pem {
            Some(p) => match pem_rsa_private_keys(p@) {
                Some(ks) => ks.len() >= 1,
                None => false,
            },
            None => true,
        },
        key_pem matches Some(p) ==> match pem_rsa_private_keys(p@) {
            None => key_error(key_pem) == TlsFileError::InvalidKey,
            Some(ks) => ks.len() == 0 ==> key_error(key_pem) == TlsFileError::MissingKey,
        },
{
}

/// The default configuration listens on every IPv6 address at port 9315, joins only the
/// unspecified IPv6 group, and holds no TLS material.
pub proof fn law_default_config(c: Config)
    requires
        is_default_config(c),
    ensures
        c.server_listen_ip == IpAddress::V6(0),
        c.server_listen_port == 9315,
        c.server_multicast_groups@ == seq![IpAddress::V6(0)],
        c.server_ssl_cert_file.is_none(),
        c.server_ssl_key_file.is_none(),
        c.server_ssl_certs@.len() == 0,
        c.server_ssl_pkey.is_none(),
{
}

/// Configurations with the same settings agree on the address, the port, the multicast
/// groups and the names of the TLS files.
pub proof fn law_same_settings(a: Config, b: Config)
    ensures
        same_settings(a, b) <==> {
            &&& a.server_listen_ip == b.server_listen_ip
            &&& a.server_listen_port == b.server_listen_port
            &&& a.server_multicast_groups == b.server_multicast_groups
            &&& a.server_ssl_cert_file == b.server_ssl_cert_file
            &&& a.server_ssl_key_file == b.server_ssl_key_file
        },
{
}

} // verus!
