use vstd::prelude::*;

verus! {

/// What a `Config` holds, as mathematical values.
pub struct ConfigView {
    pub user: Seq<char>,
    pub network: Option<Seq<char>>,
}

/// The user's choices at start-up: a display name, and the address of a peer
/// to join (`None` starts a new network).
#[derive(Debug)]
pub struct Config {
    user: String,
    network: Option<String>,
}

pub open spec fn option_string_view(o: Option<String>) -> Option<Seq<char>> {
    match o {
        Some(s) => Some(s@),
        None => None,
    }
}

/// The configuration with the name replaced.
pub open spec fn with_user(c: ConfigView, user: Seq<char>) -> ConfigView {
    ConfigView { user, network: c.network }
}

/// The configuration with the peer address replaced.
pub open spec fn with_network(c: ConfigView, network: Option<Seq<char>>) -> ConfigView {
    ConfigView { user: c.user, network }
}

impl View for Config {
    type V = ConfigView;

    closed spec fn view(&self) -> ConfigView {
        ConfigView { user: self.user@, network: option_string_view(self.network) }
    }
}

impl Config {
    /// An empty name and no network.
    pub fn default() -> (c: Config)
        ensures
            c@.user == Seq::<char>::empty(),
            c@.network is None,
    {
        Config { user: String::new(), network: None }
    }

    /// Sets the display name; the network is kept.
    pub fn user(&mut self, user: &str)
        ensures
            final(self)@ == with_user(old(self)@, user@),
    {
        self.user = user.to_owned();
    }

    /// Sets the address of the peer to join, or `None` for a new network; the name is kept.
    pub fn network(&mut self, network: Option<&str>)
        ensures
            final(self)@ == with_network(
                old(self)@,
                match network {
                    Some(s) => Some(s@),
                    None => None::<Seq<char>>,
                },
            ),
    {
        match network {
            Some(s) => self.network = Some(s.to_owned()),
            None => self.network = None,
        }
    }

    pub fn get_user(&self) -> (u: &String)
        ensures
            u@ == self@.user,
    {
        &self.user
    }

    pub fn get_network(&self) -> (n: Option<&String>)
        ensures
            match n {
                Some(s) => self@.network == Some(s@),
                None => self@.network is None,
            },
    {
        self.network.as_ref()
    }
}

/// Setting the name and setting the address do not touch each other: a
/// read gives back what the last write of that field wrote, and the two
/// writes may come in either order.
pub proof fn lemma_config_read_after_write(
    c: ConfigView,
    user: Seq<char>,
    network: Option<Seq<char>>,
)
    ensures
        with_user(c, user).user == user,
        with_user(c, user).network == c.network,
        with_network(c, network).network == network,
        with_network(c, network).user == c.user,
        with_network(with_user(c, user), network) == with_user(with_network(c, network), user),
{
}

} // verus!
