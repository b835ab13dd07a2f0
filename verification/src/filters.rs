//! The filter configuration: which packets a capture keeps.

use vstd::prelude::*;

verus! {

/// Transport-layer protocol selector.
#[derive(Clone, Copy, Debug, PartialEq, Eq, Hash, Structural)]
pub enum TransProtocol {
    /// Transmission Control Protocol
    TCP,
    /// User Datagram Protocol
    UDP,
    /// No selection: both are kept.
    Other,
}

/// Application-layer protocol selector.
#[derive(Clone, Copy, Debug, PartialEq, Eq, Hash, Structural)]
pub enum AppProtocol {
    /// File Transfer Protocol
    FTP,
    /// Secure Shell
    SSH,
    /// Telnet
    Telnet,
    /// Simple Mail Transfer Protocol
    SMTP,
    /// Terminal Access Controller Access-Control System
    TACACS,
    /// Domain Name System
    DNS,
    /// Dynamic Host Configuration Protocol
    DHCP,
    /// Trivial File Transfer Protocol
    TFTP,
    /// Hypertext Transfer Protocol
    HTTP,
    /// Post Office Protocol
    POP,
    /// Network Time Protocol
    NTP,
    /// NetBIOS
    NetBIOS,
    /// Post Office Protocol 3 over TLS/SSL
    POP3S,
    /// Internet Message Access Protocol
    IMAP,
    /// Simple Network Management Protocol
    SNMP,
    /// Border Gateway Protocol
    BGP,
    /// Lightweight Directory Access Protocol
    LDAP,
    /// Hypertext Transfer Protocol over TLS/SSL
    HTTPS,
    /// Lightweight Directory Access Protocol over TLS/SSL
    LDAPS,
    /// File Transfer Protocol over TLS/SSL
    FTPS,
    /// Internet Message Access Protocol over TLS/SSL
    IMAPS,
    /// Simple Service Discovery Protocol
    SSDP,
    /// Extensible Messaging and Presence Protocol
    XMPP,
    /// No selection: every application protocol is kept.
    Other,
}

/// The filters chosen by the user.
pub struct Filters {
    /// Internet Protocol version selector.
    pub ip: String,
    /// Transport-layer protocol selector.
    pub transport: TransProtocol,
    /// Application-layer protocol selector.
    pub application: AppProtocol,
}

/// Mathematical content of a filter configuration.
pub struct FiltersView {
    pub ip: Seq<char>,
    pub transport: TransProtocol,
    pub application: AppProtocol,
}

impl View for Filters {
    type V = FiltersView;

    open spec fn view(&self) -> FiltersView {
        FiltersView { ip: self.ip@, transport: self.transport, application: self.application }
    }
}

impl Clone for Filters {
    fn clone(&self) -> (copy: Filters)
        ensures
            copy@ == self@,
    {
        Filters { ip: self.ip.clone(), transport: self.transport, application: self.application }
    }
}

impl Filters {
    /// A filter configuration made of the three selectors.
    pub fn new(ip: String, transport: TransProtocol, application: AppProtocol) -> (filters: Filters)
        ensures
            filters@ == (FiltersView { ip: ip@, transport, application }),
    {
        Filters { ip, transport, application }
    }
}

} // verus!
