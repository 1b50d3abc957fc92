//! How the edge process is invoked: the executable, its argument vector, the
//! node's name and the capabilities that the executable needs.

use crate::config::{ConfigView, N2NConfig};
use crate::text::{
    chars_of, contains_str, contains_text, decimal, decimal_text, drop_spaces, is_space,
    lemma_trimmed_is_tight, opt_text, push_str, push_text, skip_spaces, split_words, str_equal,
    string_of, texts, trim_chars, trimmed, words,
};
use vstd::prelude::*;
use vstd::string::StringExecFns;

verus! {

/// The platforms that differ in how a process is named, found and signalled.
#[derive(Debug, Clone, Copy, PartialEq, Eq, Structural)]
pub enum Platform {
    /// Linux, where signals may need a privileged helper.
    Linux,
    /// Any other Unix.
    Unix,
    /// Windows, where `taskkill` takes the place of signals.
    Windows,
}

/// Whether the edge process is told to stay in the foreground: everywhere
/// but on Windows, whose edition of it knows no such option.
pub open spec fn stays_in_foreground(platform: Platform) -> bool {
    platform != Platform::Windows
}

/// What to spawn: the executable and its arguments.
#[derive(Debug, Clone, PartialEq, Eq)]
pub struct LaunchPlan {
    pub program: String,
    pub args: Vec<String>,
}

/// The name used for a node whose host has no usable name.
pub open spec fn fallback_node_name() -> Seq<char> {
    "n2n-maid"@
}

/// A text of white space alone.
pub open spec fn is_blank(s: Seq<char>) -> bool {
    trimmed(s).len() == 0
}

/// The node's name for a host name as the system gave it: the host name
/// without surrounding white space, or the fallback where that is empty or
/// the system gave none.
pub open spec fn node_name_text(host: Option<Seq<char>>) -> Seq<char> {
    match host {
        Some(h) => if is_blank(h) {
            fallback_node_name()
        } else {
            trimmed(h)
        },
        None => fallback_node_name(),
    }
}

/// A node's name made from a host name is never blank.
pub proof fn lemma_node_name_never_blank(host: Option<Seq<char>>)
    ensures
        !is_blank(node_name_text(host)),
{
    let fallback = fallback_node_name();
    reveal_strlit("n2n-maid");
    assert(fallback.len() == 8);
    assert(!is_space(fallback[0]) && !is_space(fallback[7]));
    assert(skip_spaces(fallback, 0, 8) == 0);
    assert(drop_spaces(fallback, 0, 8) == 8);
    match host {
        Some(h) => {
            lemma_trimmed_is_tight(h);
        },
        None => {},
    }
}

/// `-f`, which keeps the edge process in the foreground, where asked for.
pub open spec fn foreground_args(foreground: bool) -> Seq<Seq<char>> {
    if foreground {
        seq!["-f"@]
    } else {
        Seq::empty()
    }
}

/// The community and the supernode.
pub open spec fn network_args(c: ConfigView) -> Seq<Seq<char>> {
    seq!["-c"@, c.community, "-l"@, c.supernode]
}

/// The node's name: the configured one, or `fallback` where that is blank.
pub open spec fn name_args(c: ConfigView, fallback: Seq<char>) -> Seq<Seq<char>> {
    seq!["-I"@, if is_blank(c.username) {
        fallback
    } else {
        c.username
    }]
}

/// The shared secret, unless it is empty.
pub open spec fn key_args(c: ConfigView) -> Seq<Seq<char>> {
    if c.encryption_key.len() > 0 {
        seq!["-k"@, c.encryption_key]
    } else {
        Seq::empty()
    }
}

/// The address: the DHCP sentinel in DHCP mode, else the static address where
/// one is configured.
pub open spec fn address_args(c: ConfigView) -> Seq<Seq<char>> {
    if c.ip_mode == "dhcp"@ {
        seq!["-a"@, "dhcp:0.0.0.0"@]
    } else {
        match c.static_ip {
            Some(ip) => seq!["-a"@, ip],
            None => Seq::empty(),
        }
    }
}

/// The MTU, in decimal, where one is configured.
pub open spec fn mtu_args(c: ConfigView) -> Seq<Seq<char>> {
    match c.mtu {
        Some(m) => seq!["-M"@, decimal_text(m as nat)],
        None => Seq::empty(),
    }
}

/// The interface's name, where one is configured.
pub open spec fn device_args(c: ConfigView) -> Seq<Seq<char>> {
    match c.tap_device {
        Some(d) => seq!["-d"@, d],
        None => Seq::empty(),
    }
}

/// The extra arguments, word by word.
pub open spec fn extra_args(c: ConfigView) -> Seq<Seq<char>> {
    match c.extra_args {
        Some(e) => words(e),
        None => Seq::empty(),
    }
}

/// The argument vector of the edge process, in its fixed order. The extra
/// arguments come last, so that they can override what stands before them.
pub open spec fn edge_args(c: ConfigView, fallback_name: Seq<char>, foreground: bool) -> Seq<
    Seq<char>,
> {
    foreground_args(foreground) + network_args(c) + name_args(c, fallback_name) + key_args(c)
        + address_args(c) + mtu_args(c) + device_args(c) + extra_args(c)
}

/// Whether `s` holds white space alone.
pub fn blank(s: &str) -> (r: bool)
    ensures
        r == is_blank(s@),
{
    let c = chars_of(s);
    trim_chars(c.as_slice()).len() == 0
}

/// Moves the strings of `src` to the end of `dst`.
fn append_texts(dst: &mut Vec<String>, src: Vec<String>)
    ensures
        texts(final(dst)@) == texts(old(dst)@) + texts(src@),
{
    let mut rest = src;
    dst.append(&mut rest);
    assert(texts(dst@) =~= texts(old(dst)@) + texts(src@));
}

/// A vector of two strings.
fn pair_of(flag: &str, value: String) -> (out: Vec<String>)
    ensures
        texts(out@) == seq![flag@, value@],
{
    let mut out: Vec<String> = Vec::new();
    push_str(&mut out, flag);
    push_text(&mut out, value);
    assert(texts(out@) =~= seq![flag@, value@]);
    out
}

/// A vector of no strings.
fn no_args() -> (out: Vec<String>)
    ensures
        out@ == Seq::<String>::empty(),
        texts(out@) == Seq::<Seq<char>>::empty(),
{
    let out: Vec<String> = Vec::new();
    assert(texts(out@) =~= Seq::<Seq<char>>::empty());
    out
}

/// The part of the argument vector that `foreground_args` describes.
fn foreground_part(foreground: bool) -> (out: Vec<String>)
    ensures
        texts(out@) == foreground_args(foreground),
{
    let mut out = no_args();
    if foreground {
        push_str(&mut out, "-f");
        assert(texts(out@) =~= seq!["-f"@]);
    }
    out
}

/// The part of the argument vector that `network_args` describes.
fn network_part(config: &N2NConfig) -> (out: Vec<String>)
    ensures
        texts(out@) == network_args(config@),
{
    let mut out = pair_of("-c", config.community.clone());
    push_str(&mut out, "-l");
    push_text(&mut out, config.supernode.clone());
    assert(texts(out@) =~= network_args(config@));
    out
}

/// The part of the argument vector that `name_args` describes.
fn name_part(config: &N2NConfig, fallback_name: &str) -> (out: Vec<String>)
    ensures
        texts(out@) == name_args(config@, fallback_name@),
{
    if blank(config.username.as_str()) {
        pair_of("-I", fallback_name.to_owned())
    } else {
        pair_of("-I", config.username.clone())
    }
}

/// The part of the argument vector that `key_args` describes.
fn key_part(config: &N2NConfig) -> (out: Vec<String>)
    ensures
        texts(out@) == key_args(config@),
{
    if config.encryption_key.as_str().unicode_len() > 0 {
        pair_of("-k", config.encryption_key.clone())
    } else {
        no_args()
    }
}

/// The part of the argument vector that `address_args` describes.
fn address_part(config: &N2NConfig) -> (out: Vec<String>)
    ensures
        texts(out@) == address_args(config@),
{
    if str_equal(config.ip_mode.as_str(), "dhcp") {
        pair_of("-a", String::from_str("dhcp:0.0.0.0"))
    } else {
        match &config.static_ip {
            Some(ip) => pair_of("-a", ip.clone()),
            None => no_args(),
        }
    }
}

/// The part of the argument vector that `mtu_args` describes.
fn mtu_part(config: &N2NConfig) -> (out: Vec<String>)
    ensures
        texts(out@) == mtu_args(config@),
{
    match config.mtu {
        Some(m) => {
            let digits = decimal(m as u64);
            pair_of("-M", string_of(digits.as_slice()))
        },
        None => no_args(),
    }
}

/// The part of the argument vector that `device_args` describes.
fn device_part(config: &N2NConfig) -> (out: Vec<String>)
    ensures
        texts(out@) == device_args(config@),
{
    match &config.tap_device {
        Some(d) => pair_of("-d", d.clone()),
        None => no_args(),
    }
}

/// The part of the argument vector that `extra_args` describes.
fn extra_part(config: &N2NConfig) -> (out: Vec<String>)
    ensures
        texts(out@) == extra_args(config@),
{
    match &config.extra_args {
        Some(e) => {
            let ec = chars_of(e.as_str());
            split_words(ec.as_slice())
        },
        None => no_args(),
    }
}

/// The argument vector of the edge process for `config`, with `fallback_name`
/// as the node's name where the configured one is blank, and with `-f` in
/// front where `foreground` is set.
pub fn build_args(config: &N2NConfig, fallback_name: &str, foreground: bool) -> (args: Vec<String>)
    ensures
        texts(args@) == edge_args(config@, fallback_name@, foreground),
{
    let mut args = foreground_part(foreground);
    append_texts(&mut args, network_part(config));
    append_texts(&mut args, name_part(config, fallback_name));
    append_texts(&mut args, key_part(config));
    append_texts(&mut args, address_part(config));
    append_texts(&mut args, mtu_part(config));
    append_texts(&mut args, device_part(config));
    append_texts(&mut args, extra_part(config));
    args
}

/// The node's name for the host name that the system gave, if it gave one.
pub fn node_name_from(host: Option<&str>) -> (name: String)
    ensures
        name@ == node_name_text(
            match host {
                Some(h) => Some(h@),
                None => None,
            },
        ),
{
    match host {
        Some(h) => {
            let c = chars_of(h);
            let t = trim_chars(c.as_slice());
            if t.len() == 0 {
                String::from_str("n2n-maid")
            } else {
                string_of(t.as_slice())
            }
        },
        None => String::from_str("n2n-maid"),
    }
}

/// `nix::unistd::gethostname` asks the system for the host's name. Nothing is
/// claimed of the answer; a name that is no UTF-8 is converted lossily, and a
/// failure of the call gives `None`.
#[verifier::external_body]
fn system_host_name() -> Option<String> {
    match nix::unistd::gethostname() {
        Ok(name) => Some(name.to_string_lossy().into_owned()),
        Err(_) => None,
    }
}

/// `which::which` looks for an executable called `name` in the directories of
/// `PATH`. Nothing is claimed of the answer, which depends on the environment
/// and on what is on disk; a path that is no UTF-8 is converted lossily, and
/// `None` stands for any failure of the search.
#[verifier::external_body]
fn find_on_path(name: &str) -> Option<String> {
    match which::which(name) {
        Ok(path) => Some(path.to_string_lossy().into_owned()),
        Err(_) => None,
    }
}

/// The node's default name: on Windows the fallback, elsewhere the name made
/// from what the system calls this host.
pub fn get_default_node_name(platform: Platform) -> (name: String)
    ensures
        platform == Platform::Windows ==> name@ == fallback_node_name(),
        exists|host: Option<Seq<char>>| name@ == node_name_text(host),
        !is_blank(name@),
{
    proof {
        lemma_node_name_never_blank(None);
    }
    let host: Option<String> = match platform {
        Platform::Windows => None,
        _ => system_host_name(),
    };
    match host {
        Some(h) => {
            let name = node_name_from(Some(h.as_str()));
            assert(name@ == node_name_text(Some(h@)));
            proof {
                lemma_node_name_never_blank(Some(h@));
            }
            name
        },
        None => {
            let name = node_name_from(None);
            assert(name@ == node_name_text(None));
            name
        },
    }
}

/// Where the edge executable is looked for when none is configured: on
/// Windows under `bin` beside the program; elsewhere on `PATH` if it was found
/// there, else under `bin` in the working directory.
pub open spec fn default_edge_path(platform: Platform, on_path: bool) -> Seq<char> {
    if platform == Platform::Windows {
        "bin/edge.exe"@
    } else if on_path {
        "edge"@
    } else {
        "./bin/edge"@
    }
}

/// The default path of the edge executable, given whether `edge` was found on
/// `PATH`.
pub fn default_edge_path_for(platform: Platform, on_path: bool) -> (path: String)
    ensures
        path@ == default_edge_path(platform, on_path),
{
    match platform {
        Platform::Windows => String::from_str("bin/edge.exe"),
        _ => if on_path {
            String::from_str("edge")
        } else {
            String::from_str("./bin/edge")
        },
    }
}

/// The default path of the edge executable on this machine.
pub fn get_default_edge_path(platform: Platform) -> (path: String)
    ensures
        platform == Platform::Windows ==> path@ == "bin/edge.exe"@,
        path@ == default_edge_path(platform, true) || path@ == default_edge_path(platform, false),
{
    match platform {
        Platform::Windows => default_edge_path_for(platform, false),
        _ => {
            let found = find_on_path("edge");
            default_edge_path_for(platform, found.is_some())
        },
    }
}

/// Why an edge process could not be started.
#[derive(Debug, Clone, Copy, PartialEq, Eq, Structural)]
pub enum StartError {
    /// An edge process is already at work.
    AlreadyRunning,
    /// The supernode's address names no port.
    BadSupernode,
    /// The edge executable was not found on `PATH`.
    EdgeNotFound,
    /// The helper that asks for administrative rights was not found.
    ElevationHelperMissing,
    /// The tool that grants capabilities was not found.
    GrantToolMissing,
    /// Granting the capabilities failed, with this exit code if there was one.
    GrantFailed(Option<i32>),
}

/// The path to grant capabilities to: `edge_path` itself if it names a
/// directory, else what the search on `PATH` found.
pub open spec fn resolved_edge_path(edge_path: Seq<char>, found: Option<Seq<char>>) -> Result<
    Seq<char>,
    StartError,
> {
    if contains_text(edge_path, "/"@) {
        Ok(edge_path)
    } else {
        match found {
            Some(p) => Ok(p),
            None => Err(StartError::EdgeNotFound),
        }
    }
}

/// The view of a path or the error in its place.
pub open spec fn path_result(r: Result<String, StartError>) -> Result<Seq<char>, StartError> {
    match r {
        Ok(p) => Ok(p@),
        Err(e) => Err(e),
    }
}

/// The path to grant capabilities to, given what a search for `edge_path` on
/// `PATH` found.
pub fn resolve_edge_path_with(edge_path: &str, found: Option<String>) -> (r: Result<
    String,
    StartError,
>)
    ensures
        path_result(r) == resolved_edge_path(edge_path@, opt_text(found)),
{
    let c = chars_of(edge_path);
    if contains_str(c.as_slice(), "/") {
        Ok(edge_path.to_owned())
    } else {
        match found {
            Some(p) => Ok(p),
            None => Err(StartError::EdgeNotFound),
        }
    }
}

/// The path to grant capabilities to: a path that names a directory is taken
/// as it is, a bare name is searched on `PATH`.
pub fn resolve_edge_path_for_caps(edge_path: &str) -> (r: Result<String, StartError>)
    ensures
        contains_text(edge_path@, "/"@) ==> path_result(r) == Ok::<Seq<char>, StartError>(
            edge_path@,
        ),
        r is Err ==> r == Err::<String, StartError>(StartError::EdgeNotFound),
        exists|found: Option<Seq<char>>| path_result(r) == resolved_edge_path(edge_path@, found),
{
    let c = chars_of(edge_path);
    if contains_str(c.as_slice(), "/") {
        let r = resolve_edge_path_with(edge_path, None);
        assert(path_result(r) == resolved_edge_path(edge_path@, None));
        r
    } else {
        let found = find_on_path(edge_path);
        let ghost f = opt_text(found);
        let r = resolve_edge_path_with(edge_path, found);
        assert(path_result(r) == resolved_edge_path(edge_path@, f));
        r
    }
}

/// The capabilities that the edge executable needs when it is not run as
/// root: two to create and configure the interface, two to drop privileges.
pub open spec fn has_capabilities(listing: Seq<char>) -> bool {
    &&& contains_text(listing, "cap_net_admin"@)
    &&& contains_text(listing, "cap_net_raw"@)
    &&& contains_text(listing, "cap_setuid"@)
    &&& contains_text(listing, "cap_setgid"@)
}

/// The capability set as the granting tool takes it.
pub open spec fn capability_spec() -> Seq<char> {
    "cap_net_admin,cap_net_raw,cap_setuid,cap_setgid+eip"@
}

/// Whether `listing`, the output of the tool that lists a file's
/// capabilities, names each capability that the edge executable needs.
pub fn capabilities_present(listing: &str) -> (r: bool)
    ensures
        r == has_capabilities(listing@),
{
    let c = chars_of(listing);
    contains_str(c.as_slice(), "cap_net_admin") && contains_str(c.as_slice(), "cap_net_raw")
        && contains_str(c.as_slice(), "cap_setuid") && contains_str(c.as_slice(), "cap_setgid")
}

/// Whether a run of the listing tool shows that nothing has to be granted:
/// it succeeded and its output names every capability needed.
pub fn probe_satisfied(success: bool, listing: &str) -> (r: bool)
    ensures
        r == (success && has_capabilities(listing@)),
{
    success && capabilities_present(listing)
}

/// What granting the capabilities came to: success, or the failure with the
/// exit code of the helper.
pub fn grant_outcome(success: bool, code: Option<i32>) -> (r: Result<(), StartError>)
    ensures
        r == if success {
            Ok::<(), StartError>(())
        } else {
            Err::<(), StartError>(StartError::GrantFailed(code))
        },
{
    if success {
        Ok(())
    } else {
        Err(StartError::GrantFailed(code))
    }
}

/// The commands that make sure of the capabilities of the edge executable.
#[derive(Debug, Clone, PartialEq, Eq)]
pub struct CapabilityPlan {
    /// Lists the capabilities that the executable has; `None` where the
    /// listing tool was not found.
    pub probe: Option<Vec<String>>,
    /// Grants the capabilities, through the helper that asks for
    /// administrative rights.
    pub grant: Vec<String>,
}

/// What a `CapabilityPlan` holds, as plain text.
pub struct CapabilityPlanView {
    pub probe: Option<Seq<Seq<char>>>,
    pub grant: Seq<Seq<char>>,
}

impl View for CapabilityPlan {
    type V = CapabilityPlanView;

    open spec fn view(&self) -> CapabilityPlanView {
        CapabilityPlanView {
            probe: match self.probe {
                Some(p) => Some(texts(p@)),
                None => None,
            },
            grant: texts(self.grant@),
        }
    }
}

/// The view of a plan or the error in its place.
pub open spec fn plan_result(r: Result<CapabilityPlan, StartError>) -> Result<
    CapabilityPlanView,
    StartError,
> {
    match r {
        Ok(p) => Ok(p@),
        Err(e) => Err(e),
    }
}

/// The plan for `edge_path`, given where the elevation helper, the granting
/// tool and the listing tool were found. The first two are needed; without
/// the third the capabilities are granted without looking first.
pub open spec fn capability_plan(
    edge_path: Seq<char>,
    helper: Option<Seq<char>>,
    grant_tool: Option<Seq<char>>,
    list_tool: Option<Seq<char>>,
) -> Result<CapabilityPlanView, StartError> {
    match (helper, grant_tool) {
        (None, _) => Err(StartError::ElevationHelperMissing),
        (Some(_), None) => Err(StartError::GrantToolMissing),
        (Some(h), Some(g)) => Ok(
            CapabilityPlanView {
                probe: match list_tool {
                    Some(l) => Some(seq![l, edge_path]),
                    None => None,
                },
                grant: seq![h, g, capability_spec(), edge_path],
            },
        ),
    }
}

/// The plan for `edge_path`, given where the three tools were found.
pub fn plan_capabilities(
    edge_path: &str,
    helper: Option<String>,
    grant_tool: Option<String>,
    list_tool: Option<String>,
) -> (r: Result<CapabilityPlan, StartError>)
    ensures
        plan_result(r) == capability_plan(
            edge_path@,
            opt_text(helper),
            opt_text(grant_tool),
            opt_text(list_tool),
        ),
{
    let h = match helper {
        Some(h) => h,
        None => { return Err(StartError::ElevationHelperMissing); },
    };
    let g = match grant_tool {
        Some(g) => g,
        None => { return Err(StartError::GrantToolMissing); },
    };
    let probe = match list_tool {
        Some(l) => Some(pair_of(l.as_str(), edge_path.to_owned())),
        None => None,
    };
    let mut grant = pair_of(h.as_str(), g);
    push_str(&mut grant, "cap_net_admin,cap_net_raw,cap_setuid,cap_setgid+eip");
    push_str(&mut grant, edge_path);
    assert(texts(grant@) =~= seq![h@, g@, capability_spec(), edge_path@]);
    Ok(CapabilityPlan { probe, grant })
}

/// The plan that makes sure of the capabilities of the executable at
/// `edge_path`, with the tools as they are found on `PATH`: `pkexec`,
/// `setcap` and `getcap`.
pub fn ensure_edge_capabilities(edge_path: &str) -> (r: Result<CapabilityPlan, StartError>)
    ensures
        exists|helper: Option<Seq<char>>, grant_tool: Option<Seq<char>>, list_tool: Option<Seq<char>>|
            plan_result(r) == capability_plan(edge_path@, helper, grant_tool, list_tool),
{
    let helper = find_on_path("pkexec");
    let grant_tool = find_on_path("setcap");
    let list_tool = find_on_path("getcap");
    let ghost h = opt_text(helper);
    let ghost g = opt_text(grant_tool);
    let ghost l = opt_text(list_tool);
    let r = plan_capabilities(edge_path, helper, grant_tool, list_tool);
    assert(plan_result(r) == capability_plan(edge_path@, h, g, l));
    r
}

/// The message of a start that was refused for the supernode's address.
pub open spec fn bad_supernode_text() -> Seq<char> {
    "Supernode 地址格式错误，必须包含端口号（如 vpn.example.com:7777）"@
}

/// The decimal numeral of a whole number, with a minus sign where it is
/// negative.
pub open spec fn signed_text(i: int) -> Seq<char> {
    if i < 0 {
        "-"@ + decimal_text((-i) as nat)
    } else {
        decimal_text(i as nat)
    }
}

/// An exit code as a message shows it.
pub open spec fn exit_code_text(code: Option<i32>) -> Seq<char> {
    match code {
        Some(c) => "Some("@ + signed_text(c as int) + ")"@,
        None => "None"@,
    }
}

/// The message that tells the user why nothing was started.
pub open spec fn start_error_text(e: StartError) -> Seq<char> {
    match e {
        StartError::AlreadyRunning => "N2N 进程已在运行"@,
        StartError::BadSupernode => bad_supernode_text(),
        StartError::EdgeNotFound => "无法在 PATH 中找到 edge 可执行文件"@,
        StartError::ElevationHelperMissing => "未找到 pkexec，请安装 polkit（KDE 可用 polkit-kde-agent）"@,
        StartError::GrantToolMissing => "未找到 setcap，请安装 libcap 工具包"@,
        StartError::GrantFailed(code) => "pkexec setcap 执行失败，退出码："@ + exit_code_text(code),
    }
}

/// An exit code as a message shows it.
fn exit_code(code: Option<i32>) -> (r: String)
    ensures
        r@ == exit_code_text(code),
{
    match code {
        Some(c) => {
            let mut r = String::from_str("Some(");
            if c < 0 {
                r.append("-");
                let m: u64 = (-(c as i64)) as u64;
                let d = decimal(m);
                r.append(string_of(d.as_slice()).as_str());
                assert(r@ =~= "Some("@ + signed_text(c as int));
            } else {
                let d = decimal(c as u64);
                r.append(string_of(d.as_slice()).as_str());
            }
            r.append(")");
            r
        },
        None => String::from_str("None"),
    }
}

impl StartError {
    /// The message that tells the user why nothing was started.
    pub fn message(&self) -> (r: String)
        ensures
            r@ == start_error_text(*self),
    {
        match self {
            StartError::AlreadyRunning => String::from_str("N2N 进程已在运行"),
            StartError::BadSupernode => String::from_str(
                "Supernode 地址格式错误，必须包含端口号（如 vpn.example.com:7777）",
            ),
            StartError::EdgeNotFound => String::from_str("无法在 PATH 中找到 edge 可执行文件"),
            StartError::ElevationHelperMissing => String::from_str(
                "未找到 pkexec，请安装 polkit（KDE 可用 polkit-kde-agent）",
            ),
            StartError::GrantToolMissing => String::from_str("未找到 setcap，请安装 libcap 工具包"),
            StartError::GrantFailed(code) => {
                let mut r = String::from_str("pkexec setcap 执行失败，退出码：");
                r.append(exit_code(*code).as_str());
                r
            },
        }
    }
}

/// The message of a start that was given up because the capabilities could
/// not be made sure of.
pub open spec fn elevation_text(cause: Seq<char>) -> Seq<char> {
    "需要管理员授权以配置 edge 权限（KDE 下会弹出授权窗口）。详细错误："@ + cause
}

/// The message of a start that was given up because the capabilities could
/// not be made sure of, for the error that was met.
pub fn elevation_message(cause: &StartError) -> (r: String)
    ensures
        r@ == elevation_text(start_error_text(*cause)),
{
    let mut r = String::from_str("需要管理员授权以配置 edge 权限（KDE 下会弹出授权窗口）。详细错误：");
    r.append(cause.message().as_str());
    r
}

} // verus!
