//! The configuration of the platform: which terminal and which framebuffer it
//! runs on, how it finds its input devices, and whether it waits for the
//! vertical sync.

use vstd::prelude::*;
use crate::input::InputConfig;
use crate::text::str_equal;

verus! {

/// The terminal that is tried first where none is configured.
pub open spec fn default_tty() -> Seq<char> {
    "/dev/tty1"@
}

/// The terminal that is tried when the default one cannot be opened.
pub open spec fn fallback_tty() -> Seq<char> {
    "/dev/tty0"@
}

/// The framebuffer that is used where none is configured.
pub open spec fn default_framebuffer() -> Seq<char> {
    "/dev/fb0"@
}

/// Builds the configuration of the platform, setting by setting.
#[derive(Debug)]
pub struct LinuxFbPlatformBuilder {
    /// Path of the terminal, if one is set.
    pub tty_path: Option<String>,
    /// Path of the framebuffer, if one is set.
    pub fb_path: Option<String>,
    /// How input devices are found.
    pub input_config: InputConfig,
    /// Whether drawing waits for the vertical sync.
    pub vsync: bool,
}

/// The path that `p` holds, if it holds one.
pub open spec fn path_view(p: Option<String>) -> Option<Seq<char>> {
    match p {
        Some(s) => Some(s@),
        None => None,
    }
}

/// The first of the three texts that is there.
pub open spec fn first_of(
    configured: Option<String>,
    from_env: Option<String>,
    default: Seq<char>,
) -> Seq<char> {
    match configured {
        Some(p) => p@,
        None => match from_env {
            Some(p) => p@,
            None => default,
        },
    }
}

impl LinuxFbPlatformBuilder {
    /// A builder with nothing set: no paths, devices found by a background
    /// task, every device taken, no waiting for the vertical sync.
    pub fn new() -> (b: LinuxFbPlatformBuilder)
        ensures
            b.tty_path is None,
            b.fb_path is None,
            b.input_config.autodiscovery,
            b.input_config.threaded_input,
            b.input_config.whitelist@.len() == 0,
            b.input_config.blacklist@.len() == 0,
            !b.vsync,
    {
        LinuxFbPlatformBuilder {
            tty_path: None,
            fb_path: None,
            input_config: InputConfig::default(),
            vsync: false,
        }
    }

    /// Sets the path of the terminal.
    pub fn with_tty(self, path: String) -> (b: LinuxFbPlatformBuilder)
        ensures
            b == (LinuxFbPlatformBuilder { tty_path: Some(path), ..self }),
    {
        let mut b = self;
        b.tty_path = Some(path);
        b
    }

    /// Sets the path of the framebuffer.
    pub fn with_framebuffer(self, path: String) -> (b: LinuxFbPlatformBuilder)
        ensures
            b == (LinuxFbPlatformBuilder { fb_path: Some(path), ..self }),
    {
        let mut b = self;
        b.fb_path = Some(path);
        b
    }

    /// Sets whether input devices are looked for.
    pub fn with_input_autodiscovery(self, enable: bool) -> (b: LinuxFbPlatformBuilder)
        ensures
            b == (LinuxFbPlatformBuilder {
                input_config: InputConfig { autodiscovery: enable, ..self.input_config },
                ..self
            }),
    {
        let mut b = self;
        b.input_config.autodiscovery = enable;
        b
    }

    /// Sets whether a background task looks for input devices.
    pub fn with_threaded_input(self, enable: bool) -> (b: LinuxFbPlatformBuilder)
        ensures
            b == (LinuxFbPlatformBuilder {
                input_config: InputConfig { threaded_input: enable, ..self.input_config },
                ..self
            }),
    {
        let mut b = self;
        b.input_config.threaded_input = enable;
        b
    }

    /// Sets the whitelist of device names.
    pub fn with_input_whitelist(self, list: Vec<String>) -> (b: LinuxFbPlatformBuilder)
        ensures
            b == (LinuxFbPlatformBuilder {
                input_config: InputConfig { whitelist: list, ..self.input_config },
                ..self
            }),
    {
        let mut b = self;
        b.input_config.whitelist = list;
        b
    }

    /// Sets the blacklist of device names.
    pub fn with_input_blacklist(self, list: Vec<String>) -> (b: LinuxFbPlatformBuilder)
        ensures
            b == (LinuxFbPlatformBuilder {
                input_config: InputConfig { blacklist: list, ..self.input_config },
                ..self
            }),
    {
        let mut b = self;
        b.input_config.blacklist = list;
        b
    }

    /// Sets whether drawing waits for the vertical sync.
    pub fn with_vsync(self, enable: bool) -> (b: LinuxFbPlatformBuilder)
        ensures
            b == (LinuxFbPlatformBuilder { vsync: enable, ..self }),
    {
        let mut b = self;
        b.vsync = enable;
        b
    }

    /// The terminal to open: the configured one, or else the one that the
    /// environment names, or else the default.
    pub fn tty_device(&self, from_env: Option<String>) -> (r: String)
        ensures
            r@ == first_of(self.tty_path, from_env, default_tty()),
    {
        match &self.tty_path {
            Some(p) => p.clone(),
            None => match from_env {
                Some(p) => p,
                None => "/dev/tty1".to_owned(),
            },
        }
    }

    /// The framebuffer to open: the configured one, or else the one that the
    /// environment names, or else the default.
    pub fn framebuffer_device(&self, from_env: Option<String>) -> (r: String)
        ensures
            r@ == first_of(self.fb_path, from_env, default_framebuffer()),
    {
        match &self.fb_path {
            Some(p) => p.clone(),
            None => match from_env {
                Some(p) => p,
                None => "/dev/fb0".to_owned(),
            },
        }
    }
}

/// The terminal to try when the one at `path` cannot be opened: only the
/// default terminal has one.
pub fn tty_fallback(path: &str) -> (r: Option<String>)
    ensures
        path@ == default_tty() <==> r is Some,
        r matches Some(p) ==> p@ == fallback_tty(),
{
    if str_equal(path, "/dev/tty1") {
        Some("/dev/tty0".to_owned())
    } else {
        None
    }
}

} // verus!
