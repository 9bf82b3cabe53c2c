use vstd::prelude::*;

verus! {

/// The prefix of the name of every session's container.
pub const CONTAINER_PREFIX: &'static str = "embedder-";

/// The image that session containers run.
pub const IMAGE_NAME: &'static str = "embedder-container";

/// The image's full reference, with its tag.
pub const IMAGE_REFERENCE: &'static str = "embedder-container:latest";

/// The browser driver binary inside the image.
pub const DRIVER_BINARY: &'static str = "/usr/bin/geckodriver";

/// The rootless container engine, tried first.
pub const ROOTLESS_RUNTIME: &'static str = "podman";

/// The browser that a local driver runs where none is given.
pub const BROWSER: &'static str = "firefox";

/// The standard container engine, tried second.
pub const STANDARD_RUNTIME: &'static str = "docker";

/// Why a session could not be set up or used.
#[derive(Debug, Clone, Copy, PartialEq, Eq, Structural)]
pub enum SessionError {
    /// No container runtime was found on the search path.
    ToolingMissing,
    /// No browser binary was given or found for a local driver.
    BrowserMissing,
    /// The image build failed.
    BuildFailure,
    /// The container did not start.
    LaunchFailure,
    /// The remote-control client could not connect.
    ConnectFailure,
    /// Every port from the base up was in use.
    PortsExhausted,
    /// A page failed to load.
    NavigationFailure,
    /// The download element was not found.
    ElementNotFound,
    /// The download element has no link attribute.
    AttributeMissing,
    /// The download request failed.
    DownloadFailure,
    /// Stopping or removing the container failed.
    TeardownFailure,
}

impl SessionError {
    /// A short description of the error.
    pub fn message(&self) -> (r: &'static str) {
        match self {
            SessionError::ToolingMissing => "No `podman` or `docker` installed!",
            SessionError::BrowserMissing => "Failed to find firefox binary",
            SessionError::BuildFailure => "Failed to build the container image",
            SessionError::LaunchFailure => "Failed to start the container",
            SessionError::ConnectFailure => "Failed to connect to the browser driver",
            SessionError::PortsExhausted => "No free port was found",
            SessionError::NavigationFailure => "Failed to navigate to url",
            SessionError::ElementNotFound => "The download element was not found",
            SessionError::AttributeMissing => "The download element has no link attribute",
            SessionError::DownloadFailure => "Failed to download the file",
            SessionError::TeardownFailure => "Failed to stop or remove the container",
        }
    }
}

/// The decimal digits of `n`.
pub open spec fn decimal(n: nat) -> Seq<char>
    decreases n,
{
    if n < 10 {
        seq![digit_char(n)]
    } else {
        decimal(n / 10).push(digit_char(n % 10))
    }
}

/// The character of a decimal digit.
pub open spec fn digit_char(d: nat) -> char {
    if d == 0 {
        '0'
    } else if d == 1 {
        '1'
    } else if d == 2 {
        '2'
    } else if d == 3 {
        '3'
    } else if d == 4 {
        '4'
    } else if d == 5 {
        '5'
    } else if d == 6 {
        '6'
    } else if d == 7 {
        '7'
    } else if d == 8 {
        '8'
    } else {
        '9'
    }
}

fn digit(d: u16) -> (c: &'static str)
    requires
        d < 10,
    ensures
        c@ == seq![digit_char(d as nat)],
{
    proof {
        reveal_strlit("0");
        reveal_strlit("1");
        reveal_strlit("2");
        reveal_strlit("3");
        reveal_strlit("4");
        reveal_strlit("5");
        reveal_strlit("6");
        reveal_strlit("7");
        reveal_strlit("8");
        reveal_strlit("9");
    }
    if d == 0 {
        "0"
    } else if d == 1 {
        "1"
    } else if d == 2 {
        "2"
    } else if d == 3 {
        "3"
    } else if d == 4 {
        "4"
    } else if d == 5 {
        "5"
    } else if d == 6 {
        "6"
    } else if d == 7 {
        "7"
    } else if d == 8 {
        "8"
    } else {
        "9"
    }
}

/// The decimal text of a port number.
pub fn port_text(port: u16) -> (r: String)
    ensures
        r@ == decimal(port as nat),
    decreases port,
{
    if port < 10 {
        digit(port).to_string()
    } else {
        port_text(port / 10).concat(digit(port % 10))
    }
}

/// The name of the container that runs the session called `name`.
pub open spec fn container_name_of(name: Seq<char>) -> Seq<char> {
    CONTAINER_PREFIX@ + name
}

/// The name of the container that runs the session called `name`.
pub fn container_name(name: &str) -> (r: String)
    ensures
        r@ == container_name_of(name@),
{
    CONTAINER_PREFIX.to_string().concat(name)
}

/// The views of a list of arguments.
pub open spec fn args_view(args: Seq<String>) -> Seq<Seq<char>> {
    args.map_values(|a: String| a@)
}

/// The arguments that ask the runtime whether the image exists.
pub open spec fn image_exists_args_spec() -> Seq<Seq<char>> {
    seq!["image"@, "exists"@, IMAGE_REFERENCE@]
}

/// The arguments that build the image from a recipe read on standard input.
pub open spec fn build_args_spec() -> Seq<Seq<char>> {
    seq!["build"@, "-f"@, "-"@, "-t"@, IMAGE_NAME@, "."@]
}

/// The arguments that start the detached container of session `name`, publishing
/// `port` and running the browser driver on it.
pub open spec fn run_args_spec(name: Seq<char>, port: u16) -> Seq<Seq<char>> {
    seq![
        "run"@,
        "-p"@,
        decimal(port as nat) + ":"@ + decimal(port as nat),
        "--name"@,
        container_name_of(name),
        "-d"@,
        IMAGE_NAME@,
        DRIVER_BINARY@,
        "--host"@,
        "0.0.0.0"@,
        "-p"@,
        decimal(port as nat),
    ]
}

/// The arguments that stop the container of session `name`.
pub open spec fn stop_args_spec(name: Seq<char>) -> Seq<Seq<char>> {
    seq!["stop"@, container_name_of(name)]
}

/// The arguments that remove the container of session `name`.
pub open spec fn remove_args_spec(name: Seq<char>) -> Seq<Seq<char>> {
    seq!["rm"@, container_name_of(name)]
}

/// The arguments that ask the runtime whether the image exists.
pub fn image_exists_args() -> (r: Vec<String>)
    ensures
        args_view(r@) == image_exists_args_spec(),
{
    let r = vec!["image".to_string(), "exists".to_string(), IMAGE_REFERENCE.to_string()];
    assert(args_view(r@) =~= image_exists_args_spec());
    r
}

/// The arguments that build the image from a recipe read on standard input.
pub fn build_args() -> (r: Vec<String>)
    ensures
        args_view(r@) == build_args_spec(),
{
    let r = vec![
        "build".to_string(),
        "-f".to_string(),
        "-".to_string(),
        "-t".to_string(),
        IMAGE_NAME.to_string(),
        ".".to_string(),
    ];
    assert(args_view(r@) =~= build_args_spec());
    r
}

/// The arguments that start the container of session `name` on `port`.
pub fn run_args(name: &str, port: u16) -> (r: Vec<String>)
    ensures
        args_view(r@) == run_args_spec(name@, port),
{
    let p = port_text(port);
    let mapping = p.clone().concat(":").concat(p.as_str());
    let r = vec![
        "run".to_string(),
        "-p".to_string(),
        mapping,
        "--name".to_string(),
        container_name(name),
        "-d".to_string(),
        IMAGE_NAME.to_string(),
        DRIVER_BINARY.to_string(),
        "--host".to_string(),
        "0.0.0.0".to_string(),
        "-p".to_string(),
        p,
    ];
    assert(args_view(r@) =~= run_args_spec(name@, port));
    r
}

/// The arguments that stop the container of session `name`.
pub fn stop_args(name: &str) -> (r: Vec<String>)
    ensures
        args_view(r@) == stop_args_spec(name@),
{
    let r = vec!["stop".to_string(), container_name(name)];
    assert(args_view(r@) =~= stop_args_spec(name@));
    r
}

/// The arguments that remove the container of session `name`.
pub fn remove_args(name: &str) -> (r: Vec<String>)
    ensures
        args_view(r@) == remove_args_spec(name@),
{
    let r = vec!["rm".to_string(), container_name(name)];
    assert(args_view(r@) =~= remove_args_spec(name@));
    r
}

/// The port that a local browser driver listens on unless told otherwise.
pub const DEFAULT_DRIVER_PORT: u16 = 4444;

/// The address of the driver that a session's container publishes on `port`.
pub open spec fn driver_address_spec(port: u16) -> Seq<char> {
    "http://127.0.0.1:"@ + decimal(port as nat)
}

/// The address of the driver that a session's container publishes on `port`.
pub fn driver_address(port: u16) -> (r: String)
    ensures
        r@ == driver_address_spec(port),
{
    "http://127.0.0.1:".to_string().concat(port_text(port).as_str())
}

/// The address of a browser driver run on this host, on `port` or the default port.
pub open spec fn local_address_spec(port: Option<u16>) -> Seq<char> {
    "http://localhost:"@ + decimal(
        match port {
            Some(p) => p,
            None => DEFAULT_DRIVER_PORT,
        } as nat,
    )
}

/// The address of a browser driver run on this host, on `port` or the default port.
pub fn local_address(port: Option<u16>) -> (r: String)
    ensures
        r@ == local_address_spec(port),
{
    let p = match port {
        Some(p) => p,
        None => DEFAULT_DRIVER_PORT,
    };
    "http://localhost:".to_string().concat(port_text(p).as_str())
}

/// The arguments of a browser driver run on this host with the browser `binary`,
/// listening on `port` where one is given.
pub open spec fn local_driver_args_spec(binary: Seq<char>, port: Option<u16>) -> Seq<Seq<char>> {
    match port {
        Some(p) => seq!["-b"@, binary, "-p"@, decimal(p as nat)],
        None => seq!["-b"@, binary],
    }
}

/// The arguments of a browser driver run on this host with the browser `binary`,
/// listening on `port` where one is given.
pub fn local_driver_args(binary: &str, port: Option<u16>) -> (r: Vec<String>)
    ensures
        args_view(r@) == local_driver_args_spec(binary@, port),
{
    let mut r = vec!["-b".to_string(), binary.to_string()];
    match port {
        Some(p) => {
            r.push("-p".to_string());
            r.push(port_text(p));
        },
        None => {},
    }
    assert(args_view(r@) =~= local_driver_args_spec(binary@, port));
    r
}

/// Relies on `which::which`: the path of the named executable on the search path, if
/// one is found there. What it finds depends on the machine, so nothing is stated.
#[verifier::external_body]
fn find_executable(name: &str) -> (r: Option<String>) {
    match which::which(name) {
        Ok(p) => p.into_os_string().into_string().ok(),
        Err(_) => None,
    }
}

/// Chooses the container runtime: the rootless engine where it was found, else the
/// standard one, else none.
pub fn pick_runtime(rootless: Option<String>, standard: Option<String>) -> (r: Result<
    String,
    SessionError,
>)
    ensures
        match (rootless, standard) {
            (Some(p), _) => r == Ok::<String, SessionError>(p),
            (None, Some(d)) => r == Ok::<String, SessionError>(d),
            (None, None) => r == Err::<String, SessionError>(SessionError::ToolingMissing),
        },
{
    match rootless {
        Some(p) => Ok(p),
        None => match standard {
            Some(d) => Ok(d),
            None => Err(SessionError::ToolingMissing),
        },
    }
}

/// Finds a container runtime on the search path, rootless first. Fails with
/// `ToolingMissing` and with no other error.
/// The browser that a local driver runs: the given binary, else one found on the search
/// path. Fails with `BrowserMissing` only where none is given and none is found.
pub fn locate_browser(binary: Option<String>) -> (r: Result<String, SessionError>)
    ensures
        binary is Some ==> r == Ok::<String, SessionError>(binary->0),
        r is Err ==> r == Err::<String, SessionError>(SessionError::BrowserMissing),
{
    match binary {
        Some(b) => Ok(b),
        None => match find_executable(BROWSER) {
            Some(p) => Ok(p),
            None => Err(SessionError::BrowserMissing),
        },
    }
}

pub fn locate_runtime() -> (r: Result<String, SessionError>)
    ensures
        r is Err ==> r == Err::<String, SessionError>(SessionError::ToolingMissing),
{
    let rootless = find_executable(ROOTLESS_RUNTIME);
    let standard = match rootless {
        Some(_) => None,
        None => find_executable(STANDARD_RUNTIME),
    };
    pick_runtime(rootless, standard)
}

} // verus!
