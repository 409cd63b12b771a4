//! Where an installation keeps its user configuration. Three sources are
//! asked in turn: the properties file in the user's home directory, the
//! properties file of the installation, and the vendor's default directory.

use vstd::prelude::*;
use crate::environment::resolve;
use crate::ide::properties::{home_placeholder, IDEProperties};
use crate::ide::IDEType;
use crate::paths::{
    home_relative_rest,
    is_absolute,
    is_absolute_path,
    is_home_relative,
    join,
    joined,
    under_home,
};
use crate::text::{contains, holds};

verus! {

/// Whether a path can serve as a configuration directory: it starts at the
/// root and holds no placeholder that was left unsubstituted.
pub open spec fn is_config_dir(path: Seq<char>) -> bool {
    is_absolute_path(path) && !holds(path, home_placeholder())
}

/// The directory under which a product's default configuration directory
/// lies, before the home directory is put in for `~`.
pub open spec fn default_config_root_of(ide: IDEType) -> Seq<char> {
    if ide == IDEType::AndroidStudio {
        "~/.config/Google"@
    } else {
        "~/.config/JetBrains"@
    }
}

/// The vendor's directory under the home directory, in which a product's
/// default configuration directory lies.
pub open spec fn vendor_config_dir_of(ide: IDEType) -> Seq<char> {
    if ide == IDEType::AndroidStudio {
        ".config/Google"@
    } else {
        ".config/JetBrains"@
    }
}

/// The default root of a product is home-relative: it names the vendor's
/// directory under the home directory.
pub proof fn default_config_root_is_home_relative(ide: IDEType)
    ensures
        is_home_relative(default_config_root_of(ide)),
        under_home(default_config_root_of(ide)) == vendor_config_dir_of(ide),
{
    reveal_strlit("~/.config/Google");
    reveal_strlit("~/.config/JetBrains");
    reveal_strlit(".config/Google");
    reveal_strlit(".config/JetBrains");
    assert("~/.config/Google"@ =~= seq!['~', '/'] + ".config/Google"@);
    assert("~/.config/JetBrains"@ =~= seq!['~', '/'] + ".config/JetBrains"@);
    home_relative_rest(default_config_root_of(ide), vendor_config_dir_of(ide));
}

/// Whether a resolved default root, where there is one, lies where it should:
/// at the vendor's directory under some home directory.
pub open spec fn lies_under_home(root: Option<Seq<char>>, ide: IDEType) -> bool {
    root matches Some(dir) ==> exists|home: Seq<char>|
        dir == #[trigger] joined(home, vendor_config_dir_of(ide))
}

/// A candidate where it can serve, nothing otherwise.
pub open spec fn usable(candidate: Option<Seq<char>>) -> Option<Seq<char>> {
    match candidate {
        Some(path) => if is_config_dir(path) {
            Some(path)
        } else {
            None
        },
        None => None,
    }
}

/// The configuration directory: the first of the three candidates that can
/// serve. The default lies under `root`, the resolved default root, in the
/// directory that the descriptor names.
pub open spec fn chosen_config_path(
    global: Option<Seq<char>>,
    local: Option<Seq<char>>,
    root: Option<Seq<char>>,
    data_directory_name: Seq<char>,
) -> Option<Seq<char>> {
    if usable(global) is Some {
        global
    } else if usable(local) is Some {
        local
    } else {
        usable(
            match root {
                Some(dir) => Some(joined(dir, data_directory_name)),
                None => None,
            },
        )
    }
}

/// The path that a properties file sets, if there is such a file and it sets
/// one.
pub open spec fn override_of(properties: Option<&IDEProperties>) -> Option<Seq<char>> {
    match properties {
        Some(p) => match p.config_path {
            Some(path) => Some(path@),
            None => None,
        },
        None => None,
    }
}

/// Whether the path can serve as a configuration directory.
pub fn is_usable_config_dir(path: &str) -> (ok: bool)
    ensures
        ok == is_config_dir(path@),
{
    is_absolute(path) && !contains(path, "${user.home}")
}

/// The directory under which a product's default configuration directory
/// lies, with `~` for the home directory.
pub fn default_config_root(ide: IDEType) -> (root: &'static str)
    ensures
        root@ == default_config_root_of(ide),
{
    if ide == IDEType::AndroidStudio {
        "~/.config/Google"
    } else {
        "~/.config/JetBrains"
    }
}

fn usable_override(properties: Option<&IDEProperties>) -> (path: Option<String>)
    ensures
        match path {
            Some(p) => usable(override_of(properties)) == Some(p@),
            None => usable(override_of(properties)) is None,
        },
{
    match properties {
        Some(p) => match &p.config_path {
            Some(path) => if is_usable_config_dir(path.as_str()) {
                Some(path.clone())
            } else {
                None
            },
            None => None,
        },
        None => None,
    }
}

/// Chooses the configuration directory among the three candidates. `root` is
/// the product's default root once resolved, if it could be resolved.
pub fn choose_config_path(
    global: Option<&IDEProperties>,
    local: Option<&IDEProperties>,
    root: Option<&str>,
    data_directory_name: &str,
) -> (path: Option<String>)
    ensures
        match path {
            Some(p) => is_config_dir(p@) && chosen_config_path(
                override_of(global),
                override_of(local),
                match root {
                    Some(dir) => Some(dir@),
                    None => None,
                },
                data_directory_name@,
            ) == Some(p@),
            None => chosen_config_path(
                override_of(global),
                override_of(local),
                match root {
                    Some(dir) => Some(dir@),
                    None => None,
                },
                data_directory_name@,
            ) is None,
        },
{
    if let Some(path) = usable_override(global) {
        return Some(path);
    }
    if let Some(path) = usable_override(local) {
        return Some(path);
    }
    match root {
        Some(dir) => {
            let path = join(dir, data_directory_name);
            if is_usable_config_dir(path.as_str()) {
                Some(path)
            } else {
                None
            }
        },
        None => None,
    }
}

/// Resolves the configuration directory of a product. The default root is
/// resolved against the environment, to the vendor's directory under the home
/// directory; what is chosen is what `choose_config_path` chooses for the root
/// that came back, so an override that can serve is taken whatever the
/// environment says.
pub fn resolve_config_path(
    global: Option<&IDEProperties>,
    local: Option<&IDEProperties>,
    ide: IDEType,
    data_directory_name: &str,
) -> (path: Option<String>)
    ensures
        path matches Some(p) ==> is_config_dir(p@),
        usable(override_of(global)) is Some ==> (path matches Some(p) && Some(p@) == override_of(
            global,
        )),
        usable(override_of(global)) is None && usable(override_of(local)) is Some ==> (
        path matches Some(p) && Some(p@) == override_of(local)),
        exists|root: Option<Seq<char>>|
            lies_under_home(root, ide) && (match path {
                Some(p) => Some(p@),
                None => None,
            }) == #[trigger] chosen_config_path(
                override_of(global),
                override_of(local),
                root,
                data_directory_name@,
            ),
{
    proof {
        default_config_root_is_home_relative(ide);
    }
    let root = resolve(default_config_root(ide));
    let path = match &root {
        Some(dir) => choose_config_path(global, local, Some(dir.as_str()), data_directory_name),
        None => choose_config_path(global, local, None, data_directory_name),
    };
    proof {
        let ghost_root: Option<Seq<char>> = match root {
            Some(dir) => Some(dir@),
            None => None,
        };
        let chosen = chosen_config_path(
            override_of(global),
            override_of(local),
            ghost_root,
            data_directory_name@,
        );
        assert(lies_under_home(ghost_root, ide));
        assert((match path {
            Some(p) => Some(p@),
            None => None,
        }) == chosen);
    }
    path
}

} // verus!
