//! The typed core-command vocabulary, and the first cut of the remote
//! command builder and secure-shell invocation. Its later sibling
//! [`crate::excutor`] adds the home-directory builders and the second
//! execution target; both render the same single-quote elevated wrap,
//! verified against the same joining specification.

use crate::text::{dec_digits, join_spaces, join_with_spaces, u16_to_string};
use vstd::prelude::*;
use vstd::string::*;

verus! {

/// The closed set of primary commands.
#[derive(Clone, Copy, PartialEq, Eq, Structural, Debug)]
pub enum GstCoreCommand {
    Reboot,
    Home,
    Goinfre,
}

/// What a `reboot` may carry: an explicit host, or a plea for help.
#[derive(Debug, PartialEq, Eq)]
pub enum RebootSubCommand {
    Host(String),
    Help,
}

/// What a `home` may carry.
#[derive(Clone, Copy, PartialEq, Eq, Structural, Debug)]
pub enum HomeSubCommand {
    Reset,
    Close,
    Help,
}

/// What a `goinfre` may carry.
#[derive(Clone, Copy, PartialEq, Eq, Structural, Debug)]
pub enum GoinfreSubCommand {
    Reset,
    Help,
}

/// A remote command: program name plus ordered argument vector.
#[derive(Debug, PartialEq, Eq)]
pub struct RawCommand {
    pub cmd: String,
    pub args: Vec<String>,
}

/// Mathematical image of [`RawCommand`].
pub struct RawCommandView {
    pub cmd: Seq<char>,
    pub args: Seq<Seq<char>>,
}

impl RawCommandView {
    /// The single command-line string a command renders to.
    pub open spec fn command_line(self) -> Seq<char> {
        self.cmd + seq![' '] + join_spaces(self.args)
    }
}

impl View for RawCommand {
    type V = RawCommandView;

    open spec fn view(&self) -> RawCommandView {
        RawCommandView { cmd: self.cmd@, args: self.args.deep_view() }
    }
}

impl RawCommand {
    /// The workstation reboot: `ansible-playbook -l <host> reboot.yml`.
    pub fn build_reboot(location_hostname: &str) -> (r: RawCommand)
        ensures
            r@.cmd == "ansible-playbook"@,
            r@.args == seq!["-l"@, location_hostname@, "reboot.yml"@],
    {
        let mut args: Vec<String> = Vec::new();
        args.push(String::from_str("-l"));
        args.push(String::from_str(location_hostname));
        args.push(String::from_str("reboot.yml"));
        proof {
            assert(args.deep_view() =~= seq!["-l"@, location_hostname@, "reboot.yml"@]);
        }
        RawCommand { cmd: String::from_str("ansible-playbook"), args }
    }

    /// Renders the command to its one-line form.
    pub fn into_string(self) -> (r: String)
        ensures
            r@ == self@.command_line(),
    {
        let joined = join_with_spaces(&self.args);
        let mut r = self.cmd;
        proof {
            reveal_strlit(" ");
        }
        r.append(" ");
        r.append(joined.as_str());
        proof {
            assert(r@ =~= self@.command_line());
        }
        r
    }
}

/// Round trip of the reboot builder: for any host, rendering
/// `build_reboot(host)` yields exactly `ansible-playbook -l <host>
/// reboot.yml`.
pub proof fn lemma_reboot_round_trip(host: Seq<char>)
    ensures
        (RawCommandView {
            cmd: "ansible-playbook"@,
            args: seq!["-l"@, host, "reboot.yml"@],
        }).command_line() == "ansible-playbook -l "@ + host + " reboot.yml"@,
{
    reveal_strlit("ansible-playbook");
    reveal_strlit("-l");
    reveal_strlit("reboot.yml");
    reveal_strlit("ansible-playbook -l ");
    reveal_strlit(" reboot.yml");
    let args = seq!["-l"@, host, "reboot.yml"@];
    assert(args.drop_first() =~= seq![host, "reboot.yml"@]);
    assert(seq![host, "reboot.yml"@].drop_first() =~= seq!["reboot.yml"@]);
    assert(join_spaces(seq!["reboot.yml"@]) == "reboot.yml"@);
    assert(join_spaces(args.drop_first()) =~= host + seq![' '] + "reboot.yml"@);
    assert((RawCommandView { cmd: "ansible-playbook"@, args }).command_line()
        =~= "ansible-playbook -l "@ + host + " reboot.yml"@);
}

/// One secure-shell invocation; this first cut wraps the remote command
/// line in single quotes.
#[derive(Debug, PartialEq, Eq)]
pub struct SshExcutor {
    pub ssh_pub_key: Option<String>,
    pub address: String,
    pub port: Option<u16>,
    pub remote_cmd: Option<RawCommand>,
}

/// Mathematical image of [`SshExcutor`].
pub struct SshExcutorView {
    pub ssh_pub_key: Option<Seq<char>>,
    pub address: Seq<char>,
    pub port: Option<u16>,
    pub remote_cmd: Option<RawCommandView>,
}

impl View for SshExcutor {
    type V = SshExcutorView;

    open spec fn view(&self) -> SshExcutorView {
        SshExcutorView {
            ssh_pub_key: match self.ssh_pub_key {
                Some(ref k) => Some(k@),
                None => None,
            },
            address: self.address@,
            port: self.port,
            remote_cmd: match self.remote_cmd {
                Some(ref c) => Some(c@),
                None => None,
            },
        }
    }
}

/// The `-i <key>` pair, where a key was given.
pub open spec fn key_args(key: Option<Seq<char>>) -> Seq<Seq<char>> {
    match key {
        Some(k) => seq!["-i"@, k],
        None => Seq::empty(),
    }
}

/// The `-p <port>` pair, where a port was given.
pub open spec fn port_args(port: Option<u16>) -> Seq<Seq<char>> {
    match port {
        Some(p) => seq!["-p"@, dec_digits(p as int)],
        None => Seq::empty(),
    }
}

/// The remote command line, wrapped as an elevated invocation in single
/// quotes, where a remote command was given.
pub open spec fn remote_args(remote_cmd: Option<RawCommandView>) -> Seq<Seq<char>> {
    match remote_cmd {
        Some(c) => seq!["sudo su -l root -c '"@ + c.command_line() + "'"@],
        None => Seq::empty(),
    }
}

/// The full argument vector handed to the `ssh` program. The identity
/// key pair appears twice, once before and once after the port pair; the
/// second copy is redundant to `ssh` but harmless.
pub open spec fn ssh_args(e: SshExcutorView) -> Seq<Seq<char>> {
    key_args(e.ssh_pub_key) + port_args(e.port) + key_args(e.ssh_pub_key) + seq![e.address]
        + remote_args(e.remote_cmd)
}

impl SshExcutor {
    /// A bare invocation of `address`: no key, no port, no remote command.
    pub fn new(address: &str) -> (r: SshExcutor)
        ensures
            r@ == (SshExcutorView {
                ssh_pub_key: None,
                address: address@,
                port: None,
                remote_cmd: None,
            }),
    {
        SshExcutor {
            ssh_pub_key: None,
            address: String::from_str(address),
            port: None,
            remote_cmd: None,
        }
    }

    /// The automation-cluster target that runs reboot playbooks.
    pub fn new_ansible() -> (r: SshExcutor)
        ensures
            r@ == (SshExcutorView {
                ssh_pub_key: None,
                address: "ansible@ansiblecluster"@,
                port: None,
                remote_cmd: None,
            }),
    {
        SshExcutor::new("ansible@ansiblecluster")
    }

    /// The same invocation, on this port.
    pub fn with_port(self, port: u16) -> (r: SshExcutor)
        ensures
            r@ == (SshExcutorView { port: Some(port), ..self@ }),
    {
        SshExcutor { port: Some(port), ..self }
    }

    /// The same invocation, carrying this remote command.
    pub fn with_remote_cmd(self, remote_cmd: RawCommand) -> (r: SshExcutor)
        ensures
            r@ == (SshExcutorView { remote_cmd: Some(remote_cmd@), ..self@ }),
    {
        SshExcutor { remote_cmd: Some(remote_cmd), ..self }
    }

    /// The same invocation, authenticating with this identity key.
    pub fn with_ssh_pub_key(self, ssh_pub_key: String) -> (r: SshExcutor)
        ensures
            r@ == (SshExcutorView { ssh_pub_key: Some(ssh_pub_key@), ..self@ }),
    {
        SshExcutor { ssh_pub_key: Some(ssh_pub_key), ..self }
    }

    /// The argument vector this invocation hands to the `ssh` program.
    pub fn into_args(self) -> (r: Vec<String>)
        ensures
            r.deep_view() == ssh_args(self@),
    {
        let ghost v = self@;
        let SshExcutor { ssh_pub_key, address, port, remote_cmd } = self;
        let mut r: Vec<String> = Vec::new();
        match &ssh_pub_key {
            Some(key) => {
                r.push(String::from_str("-i"));
                r.push(key.clone());
            },
            None => {},
        }
        match port {
            Some(p) => {
                r.push(String::from_str("-p"));
                r.push(u16_to_string(p));
            },
            None => {},
        }
        match &ssh_pub_key {
            Some(key) => {
                r.push(String::from_str("-i"));
                r.push(key.clone());
            },
            None => {},
        }
        r.push(address);
        match remote_cmd {
            Some(c) => {
                let line = c.into_string();
                let mut w = String::from_str("sudo su -l root -c '");
                w.append(line.as_str());
                w.append("'");
                r.push(w);
            },
            None => {},
        }
        proof {
            assert(r.deep_view() =~~= ssh_args(v));
        }
        r
    }
}

} // verus!
