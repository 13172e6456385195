//! Where modules are searched for and how wide the display is, worked out
//! from what the environment gave.

use crate::text::split;
use crate::text::split_list;
use vstd::prelude::*;

verus! {

/// The family of the platform that the evaluator runs on.
#[derive(Debug, Clone, Copy, PartialEq, Eq, Structural)]
pub enum Platform {
    /// A POSIX-like system.
    Posix,
    /// Any other system.
    Other,
}

impl Platform {
    /// The character between two directories of a search path list.
    pub open spec fn list_separator(self) -> char {
        match self {
            Platform::Posix => ':',
            Platform::Other => ';',
        }
    }

    /// The directory of the modules that are installed for every user.
    pub open spec fn system_modules(self) -> Seq<char> {
        match self {
            Platform::Posix => "/usr/share/numbat/modules"@,
            Platform::Other => "C:\\Program Files\\numbat\\modules"@,
        }
    }

    /// The character between two directories of a search path list.
    pub fn separator(self) -> (separator: char)
        ensures
            separator == self.list_separator(),
    {
        match self {
            Platform::Posix => ':',
            Platform::Other => ';',
        }
    }

    /// The directory of the modules that are installed for every user.
    pub fn system_directory(self) -> (directory: &'static str)
        ensures
            directory@ == self.system_modules(),
    {
        match self {
            Platform::Posix => "/usr/share/numbat/modules",
            Platform::Other => "C:\\Program Files\\numbat\\modules",
        }
    }
}

/// The directories that a search path list names, in the list's order; none
/// where there is no list.
pub open spec fn listed_directories(list: Option<Seq<char>>, platform: Platform) -> Seq<
    Seq<char>,
> {
    match list {
        Some(list) => split(list, platform.list_separator()),
        None => Seq::empty(),
    }
}

/// The system-wide directory: the configured one where one is configured,
/// none where the configured one is empty, and the platform's own where
/// nothing is configured.
pub open spec fn system_directories(configured: Option<Seq<char>>, platform: Platform) -> Seq<
    Seq<char>,
> {
    match configured {
        Some(directory) => if directory.len() == 0 {
            Seq::empty()
        } else {
            seq![directory]
        },
        None => seq![platform.system_modules()],
    }
}

/// The directories in which modules are searched, first priority first: the
/// listed ones, then the user's, then the system-wide one.
pub open spec fn search_paths(
    list: Option<Seq<char>>,
    user_directory: Seq<char>,
    configured: Option<Seq<char>>,
    platform: Platform,
) -> Seq<Seq<char>> {
    listed_directories(list, platform) + seq![user_directory] + system_directories(
        configured,
        platform,
    )
}

/// Works out the directories in which modules are searched.
///
/// `list` is the search path list of the environment, if it is set;
/// `user_directory` the module directory under the user's configuration;
/// `configured` the system-wide directory that the build fixed, if it fixed
/// one.
pub fn get_modules_paths(
    list: Option<&str>,
    user_directory: &str,
    configured: Option<&str>,
    platform: Platform,
) -> (paths: Vec<String>)
    ensures
        paths.deep_view() == search_paths(
            list.deep_view(),
            user_directory@,
            configured.deep_view(),
            platform,
        ),
{
    let mut paths = match list {
        Some(list) => split_list(list, platform.separator()),
        None => Vec::new(),
    };
    assert(paths.deep_view() =~= listed_directories(list.deep_view(), platform));
    let ghost listed = paths.deep_view();
    paths.push(user_directory.to_owned());
    assert(paths.deep_view() =~= listed + seq![user_directory@]);
    let ghost with_user = paths.deep_view();
    match configured {
        Some(directory) => {
            if !directory.is_empty() {
                paths.push(directory.to_owned());
                assert(paths.deep_view() =~= with_user + seq![directory@]);
            } else {
                assert(paths.deep_view() =~= with_user + Seq::<Seq<char>>::empty());
            }
        },
        None => {
            paths.push(platform.system_directory().to_owned());
            assert(paths.deep_view() =~= with_user + seq![platform.system_modules()]);
        },
    }
    paths
}

/// The width of the display in columns, where the terminal told its size.
pub fn display_width(columns: Option<u16>) -> (width: Option<usize>)
    ensures
        width == match columns {
            Some(columns) => Some(columns as usize),
            None => None,
        },
{
    match columns {
        Some(columns) => Some(columns as usize),
        None => None,
    }
}

} // verus!
