//! Replay of recorded browser-interaction scripts: the command interpreter,
//! its variable store and the polling discipline, independent of the
//! automation backend that performs the requests.

pub mod command;
pub mod error;
pub mod js_lib;
pub mod locator;
pub mod poll;
pub mod runner;
pub mod store;
pub mod webdriver;
