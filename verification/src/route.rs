//! The pages of the application and the paths that lead to them.

use vstd::prelude::*;
use vstd::string::*;

verus! {

/// A page of the application.
#[derive(Debug, Clone, Copy, PartialEq, Eq, Structural)]
pub enum Route {
    Landing,
    WalletConnect,
    App,
    NotFound,
}

/// `s` without any run of `//` pairs at its end.
pub open spec fn trim_slash_pairs(s: Seq<char>) -> Seq<char>
    decreases s.len(),
{
    if s.len() >= 2 && s[s.len() - 1] == '/' && s[s.len() - 2] == '/' {
        trim_slash_pairs(s.subrange(0, s.len() - 2))
    } else {
        s
    }
}

/// The segments of a path: what stands between its slashes, before the
/// first and after the last. A path without a slash is one segment.
pub open spec fn segments(path: Seq<char>) -> Seq<Seq<char>>
    decreases path.len(),
{
    if path.len() == 0 {
        seq![Seq::empty()]
    } else {
        let front = segments(path.drop_last());
        if path.last() == '/' {
            front.push(Seq::empty())
        } else {
            front.update(front.len() - 1, front.last().push(path.last()))
        }
    }
}

/// The number of slashes in a text.
pub open spec fn slash_count(text: Seq<char>) -> nat
    decreases text.len(),
{
    if text.len() == 0 {
        0
    } else if text.last() == '/' {
        slash_count(text.drop_last()) + 1
    } else {
        slash_count(text.drop_last())
    }
}

/// The page that a single path segment names.
pub open spec fn named_route(segment: Seq<char>) -> Route {
    if segment == ""@ {
        Route::Landing
    } else if segment == "wallet-connect"@ {
        Route::WalletConnect
    } else if segment == "app"@ {
        Route::App
    } else {
        Route::NotFound
    }
}

/// The page that a path leads to below `root_path`: the segments of the
/// root, one for each of its slashes, and the empty one before the first
/// slash are passed over; exactly one segment must remain, and name a page.
pub open spec fn route_of(path: Seq<char>, root_path: Seq<char>) -> Route {
    let all = segments(path);
    let skipped = slash_count(root_path) + 1;
    if all.len() == skipped + 1 {
        named_route(all[skipped as int])
    } else {
        Route::NotFound
    }
}

/// A path always has one segment more than it has slashes.
pub proof fn segments_count(path: Seq<char>)
    ensures
        segments(path).len() == slash_count(path) + 1,
    decreases path.len(),
{
    if path.len() > 0 {
        segments_count(path.drop_last());
    }
}

/// Whether the characters are those of the text.
fn same_text(chars: &Vec<char>, text: &str) -> (same: bool)
    ensures
        same == (chars@ == text@),
{
    let n = text.unicode_len();
    if chars.len() != n {
        return false;
    }
    let mut i: usize = 0;
    while i < n
        invariant
            n == text@.len(),
            chars@.len() == n,
            i <= n,
            forall|j: int| 0 <= j < i ==> chars@[j] == text@[j],
        decreases n - i,
    {
        if chars[i] != text.get_char(i) {
            return false;
        }
        i = i + 1;
    }
    assert(chars@ =~= text@);
    true
}

/// The number of slashes in a text.
fn count_slashes(text: &str) -> (n: usize)
    ensures
        n == slash_count(text@),
{
    let len = text.unicode_len();
    let mut n: usize = 0;
    for c in it: text.chars()
        invariant
            it.seq() == text@,
            text@.len() == len,
            n <= it.index(),
            n == slash_count(text@.take(it.index() as int)),
    {
        proof {
            let k = it.index() as int;
            assert(text@.take(k + 1).drop_last() == text@.take(k));
        }
        if c == '/' {
            n = n + 1;
        }
    }
    assert(text@.take(text@.len() as int) == text@);
    n
}

impl Route {
    /// The page that the path of a URL leads to, below `root_path`.
    pub fn from_path(path: &str, root_path: &str) -> (route: Self)
        ensures
            route == route_of(path@, root_path@),
    {
        let root_slashes = count_slashes(root_path);
        let len = path.unicode_len();
        let mut slashes: usize = 0;
        let mut current: Vec<char> = Vec::new();
        for c in it: path.chars()
            invariant
                it.seq() == path@,
                path@.len() == len,
                slashes <= it.index(),
                segments(path@.take(it.index() as int)).len() == slashes + 1,
                segments(path@.take(it.index() as int)).last() == current@,
        {
            proof {
                let k = it.index() as int;
                assert(path@.take(k + 1).drop_last() == path@.take(k));
            }
            if c == '/' {
                slashes = slashes + 1;
                current = Vec::new();
            } else {
                current.push(c);
            }
        }
        assert(path@.take(path@.len() as int) == path@);
        if slashes > 0 && slashes - 1 == root_slashes {
            if same_text(&current, "") {
                Route::Landing
            } else if same_text(&current, "wallet-connect") {
                Route::WalletConnect
            } else if same_text(&current, "app") {
                Route::App
            } else {
                Route::NotFound
            }
        } else {
            Route::NotFound
        }
    }

    /// The page that is shown for a route: nothing until the configuration
    /// is loaded; the wallet page in place of the application while no wallet
    /// is connected; the route itself otherwise.
    pub fn shown(self, connected: bool, data_ready: bool) -> (r: Option<Route>)
        ensures
            r == if !data_ready {
                None
            } else if self == Route::App && !connected {
                Some(Route::WalletConnect)
            } else {
                Some(self)
            },
    {
        if !data_ready {
            None
        } else {
            match self {
                Route::App => if connected {
                    Some(Route::App)
                } else {
                    Some(Route::WalletConnect)
                },
                _ => Some(self),
            }
        }
    }

    /// Whether the header is shown above a page: above all but the landing
    /// page.
    pub fn has_header(self) -> (b: bool)
        ensures
            b == (self != Route::Landing),
    {
        match self {
            Route::Landing => false,
            _ => true,
        }
    }

    /// The last segment of the path of this page.
    pub open spec fn name(self) -> Seq<char> {
        match self {
            Route::Landing => "/"@,
            Route::WalletConnect => "wallet-connect"@,
            Route::App => "app"@,
            Route::NotFound => "404"@,
        }
    }

    /// The path of this page below `root_path`, before trimming.
    pub open spec fn untrimmed_link(self, root_path: Seq<char>) -> Seq<char> {
        root_path + "/"@ + self.name()
    }

    /// The last segment of the path of this page, as text.
    pub fn to_string(&self) -> (s: String)
        ensures
            s@ == self.name(),
    {
        match self {
            Route::Landing => String::from_str("/"),
            Route::WalletConnect => String::from_str("wallet-connect"),
            Route::App => String::from_str("app"),
            Route::NotFound => String::from_str("404"),
        }
    }

    /// The path of this page below `root_path`: root, a slash and the page's
    /// name, with every `//` pair at the end removed.
    pub fn link(&self, root_path: &str) -> (s: String)
        ensures
            s@ == trim_slash_pairs(self.untrimmed_link(root_path@)),
    {
        let mut full = String::from_str(root_path);
        full.append("/");
        let name = self.to_string();
        full.append(name.as_str());
        let text = full.as_str();
        let mut n: usize = text.unicode_len();
        assert(text@.subrange(0, n as int) == text@);
        while n >= 2 && text.get_char(n - 1) == '/' && text.get_char(n - 2) == '/'
            invariant
                n <= text@.len(),
                trim_slash_pairs(text@) == trim_slash_pairs(text@.subrange(0, n as int)),
            decreases n,
        {
            assert(text@.subrange(0, n as int).subrange(0, n - 2) == text@.subrange(0, n - 2));
            n = n - 2;
        }
        String::from_str(text.substring_char(0, n))
    }
}

} // verus!
