use vstd::prelude::*;

verus! {

/// Session configuration: the message shown when a session starts and the
/// key that ends it.
pub struct Config {
    start_msg: String,
    quit_key: char,
}

impl Config {
    /// The message printed when a session begins.
    pub closed spec fn spec_start_msg(&self) -> Seq<char> {
        self.start_msg@
    }

    /// The key that ends a session.
    pub closed spec fn spec_quit_key(&self) -> char {
        self.quit_key
    }

    pub fn start_msg(&self) -> (msg: &str)
        ensures
            msg@ == self.spec_start_msg(),
    {
        self.start_msg.as_str()
    }

    pub fn quit_key(&self) -> (key: char)
        ensures
            key == self.spec_quit_key(),
    {
        self.quit_key
    }

    /// Whether a pressed key is this configuration's quit key.
    pub fn is_quit_key(&self, key: char) -> (quit: bool)
        ensures
            quit == (key == self.spec_quit_key()),
    {
        self.quit_key == key
    }
}

impl Default for Config {
    fn default() -> (config: Config)
        ensures
            config.spec_start_msg() == "🍅 focusing..."@,
            config.spec_quit_key() == 'q',
    {
        Config { start_msg: "🍅 focusing...".to_owned(), quit_key: 'q' }
    }
}

} // verus!
