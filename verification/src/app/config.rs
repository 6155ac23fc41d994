use vstd::prelude::*;

use crate::error::Error;

verus! {

/// The application's settings.
#[derive(Debug, Clone, Copy, PartialEq, Eq, Structural)]
pub struct Config {
    pub app: ConfigApp,
}

/// The settings of the application itself.
#[derive(Debug, Clone, Copy, PartialEq, Eq, Structural)]
pub struct ConfigApp {
    /// The port on which the protocol server listens.
    pub websocket_port: u16,
}

/// A port that a server can be opened on: any but zero.
pub fn checked_port(port: u16) -> (r: Result<u16, Error>)
    ensures
        r == if port == 0 {
            Err::<u16, Error>(Error::InvalidPort)
        } else {
            Ok::<u16, Error>(port)
        },
{
    if port == 0 {
        Err(Error::InvalidPort)
    } else {
        Ok(port)
    }
}

impl Config {
    pub fn new(websocket_port: u16) -> (config: Config)
        ensures
            config.app.websocket_port == websocket_port,
    {
        Config { app: ConfigApp { websocket_port } }
    }

    /// Takes over the settings that can be changed while the application
    /// runs. A port of zero is refused and changes nothing.
    pub fn update(&mut self, wanted: &Config) -> (r: Result<(), Error>)
        ensures
            wanted.app.websocket_port == 0 ==> r == Err::<(), Error>(Error::InvalidPort)
                && *final(self) == *old(self),
            wanted.app.websocket_port != 0 ==> r is Ok && final(self).app.websocket_port
                == wanted.app.websocket_port,
    {
        match checked_port(wanted.app.websocket_port) {
            Ok(port) => {
                self.app.websocket_port = port;
                Ok(())
            },
            Err(e) => Err(e),
        }
    }
}

} // verus!
