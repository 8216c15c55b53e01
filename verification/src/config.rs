//! The settings of the on-screen display, and where they are kept.
//!
//! Paths are bytes, as the system has them.
use vstd::prelude::*;
use vstd::string::*;

verus! {

/// The settings of the items that can be shown.
#[derive(Debug)]
pub struct ItemConfig<PowerProfile> {
    /// The settings of the power profile.
    pub power_profile: PowerProfile,
}

/// The settings.
#[derive(Debug)]
pub struct Config<Seconds, PowerProfile> {
    /// How long an item stays on the screen.
    pub hide_delay: Seconds,
    pub item: ItemConfig<PowerProfile>,
}

impl<PowerProfile: Default> Default for ItemConfig<PowerProfile> {
    fn default() -> (r: Self)
        ensures
            call_ensures(PowerProfile::default, (), r.power_profile),
    {
        ItemConfig { power_profile: PowerProfile::default() }
    }
}

impl<Seconds: From<u8>, PowerProfile: Default> Default for Config<Seconds, PowerProfile> {
    /// An item stays for three seconds.
    fn default() -> (r: Self)
        ensures
            call_ensures(Seconds::from, (3u8,), r.hide_delay),
            call_ensures(PowerProfile::default, (), r.item.power_profile),
    {
        Config { hide_delay: Seconds::from(3u8), item: ItemConfig::default() }
    }
}

/// The byte that separates the parts of a path.
pub const SEPARATOR: u8 = 0x2f;

/// The path `path`, taken from `base`: an absolute one stays as it is, another is
/// put behind `base` with one separator between them.
pub open spec fn joined(base: Seq<u8>, path: Seq<u8>) -> Seq<u8> {
    if path.len() > 0 && path[0] == SEPARATOR {
        path
    } else if base.len() == 0 || base.last() == SEPARATOR {
        base + path
    } else {
        base.push(SEPARATOR) + path
    }
}

/// The directory that settings are kept in: the one that is set for them, else one
/// in the home directory.
pub open spec fn config_home_of(xdg_config_home: Option<Seq<u8>>, home: Option<Seq<u8>>) -> Seq<
    u8,
> {
    match (xdg_config_home, home) {
        (Some(xdg_config_home), _) => xdg_config_home,
        (None, Some(home)) => joined(home, ".config".spec_bytes()),
        (None, None) => "~/.config".spec_bytes(),
    }
}

/// The file that the settings are kept in.
pub open spec fn default_path_of(xdg_config_home: Option<Seq<u8>>, home: Option<Seq<u8>>) -> Seq<
    u8,
> {
    joined(
        config_home_of(xdg_config_home, home),
        "eucalyptus-gumnut/eucalyptus-gumnut.toml".spec_bytes(),
    )
}

/// The bytes of a path that may be missing.
pub open spec fn bytes_of(path: Option<Vec<u8>>) -> Option<Seq<u8>> {
    match path {
        Some(path) => Some(path@),
        None => None,
    }
}

fn extend(path: &mut Vec<u8>, more: &[u8])
    ensures
        final(path)@ == old(path)@ + more@,
{
    let mut i: usize = 0;
    while i < more.len()
        invariant
            i <= more.len(),
            path@ == old(path)@ + more@.take(i as int),
        decreases more.len() - i,
    {
        path.push(more[i]);
        i = i + 1;
        assert(path@ =~= old(path)@ + more@.take(i as int));
    }
    assert(more@.take(i as int) =~= more@);
}

/// The path `path`, taken from `base`.
pub fn join(base: Vec<u8>, path: &[u8]) -> (r: Vec<u8>)
    ensures
        r@ == joined(base@, path@),
{
    let mut r: Vec<u8> = Vec::new();
    if path.len() == 0 || path[0] != SEPARATOR {
        r = base;
        if r.len() > 0 && r[r.len() - 1] != SEPARATOR {
            r.push(SEPARATOR);
        }
    }
    extend(&mut r, path);
    r
}

/// The directory that settings are kept in.
pub fn config_home(xdg_config_home: Option<Vec<u8>>, home: Option<Vec<u8>>) -> (r: Vec<u8>)
    ensures
        r@ == config_home_of(bytes_of(xdg_config_home), bytes_of(home)),
{
    match xdg_config_home {
        Some(xdg_config_home) => xdg_config_home,
        None => match home {
            Some(home) => join(home, ".config".as_bytes()),
            None => {
                let mut r: Vec<u8> = Vec::new();
                extend(&mut r, "~/.config".as_bytes());
                r
            },
        },
    }
}

/// The file that the settings are kept in, where `xdg_config_home` is the directory
/// that is set for settings and `home` is the home directory.
pub fn default_path(xdg_config_home: Option<Vec<u8>>, home: Option<Vec<u8>>) -> (r: Vec<u8>)
    ensures
        r@ == default_path_of(bytes_of(xdg_config_home), bytes_of(home)),
{
    join(
        config_home(xdg_config_home, home),
        "eucalyptus-gumnut/eucalyptus-gumnut.toml".as_bytes(),
    )
}

/// The file that the settings are kept in lies in the directory that settings are
/// kept in, and goes by one name.
pub proof fn law_settings_lie_in_the_config_home(
    xdg_config_home: Option<Seq<u8>>,
    home: Option<Seq<u8>>,
)
    ensures
        config_home_of(xdg_config_home, home).is_prefix_of(default_path_of(xdg_config_home, home)),
        "eucalyptus-gumnut/eucalyptus-gumnut.toml".spec_bytes().is_suffix_of(
            default_path_of(xdg_config_home, home),
        ),
{
    let name = "eucalyptus-gumnut/eucalyptus-gumnut.toml";
    reveal_strlit("eucalyptus-gumnut/eucalyptus-gumnut.toml");
    is_ascii_spec_bytes(name);
    assert(name.spec_bytes()[0] == name@[0] as u8);
}

/// An absolute path does not depend on where it is taken from. Another one ends what it
/// is taken from, which it begins with, and between the two there is exactly one
/// separator more where there was none yet, and nothing else.
pub proof fn law_paths_are_joined(base: Vec<u8>, path: &[u8], r: Vec<u8>)
    requires
        call_ensures(join, (base, path), r),
    ensures
        path@.len() > 0 && path@[0] == 0x2f ==> r@ == path@,
        !(path@.len() > 0 && path@[0] == 0x2f) ==> {
            let separated = base@.len() > 0 && base@.last() != 0x2f;
            &&& base@.is_prefix_of(r@)
            &&& path@.is_suffix_of(r@)
            &&& r@.len() == base@.len() + path@.len() + if separated {
                1int
            } else {
                0
            }
            &&& separated ==> r@[base@.len() as int] == 0x2f
        },
{
}

/// Settings are kept in the directory that is set for them, wherever home is. Where none
/// is set, they are kept in a directory of the home directory with a name of its own; and
/// where that is not known either, in one that is found from the name of home alone.
pub proof fn law_the_config_home_is_the_one_that_is_set(
    xdg_config_home: Option<Vec<u8>>,
    home: Option<Vec<u8>>,
    r: Vec<u8>,
)
    requires
        call_ensures(config_home, (xdg_config_home, home), r),
    ensures
        xdg_config_home matches Some(set) ==> r@ == set@,
        xdg_config_home is None && home is Some ==> {
            let home = home->0@;
            let name = ".config".spec_bytes();
            &&& home.is_prefix_of(r@)
            &&& name.is_suffix_of(r@)
            &&& r@.len() == home.len() + name.len() + if home.len() > 0 && home.last() != 0x2f {
                1int
            } else {
                0
            }
            &&& home.len() > 0 ==> r@[r@.len() - name.len() - 1] == 0x2f
        },
        xdg_config_home is None && home is None ==> r@ == "~/.config".spec_bytes(),
{
    let name = ".config";
    reveal_strlit(".config");
    is_ascii_spec_bytes(name);
    assert(name.spec_bytes()[0] == name@[0] as u8);
}

/// The file that the settings are kept in lies in the directory that settings are kept
/// in, under one name, with one separator between them.
pub proof fn law_the_settings_have_one_place(
    xdg_config_home: Option<Vec<u8>>,
    home: Option<Vec<u8>>,
    directory: Vec<u8>,
    r: Vec<u8>,
)
    requires
        call_ensures(config_home, (xdg_config_home, home), directory),
        call_ensures(default_path, (xdg_config_home, home), r),
    ensures
        ({
            let name = "eucalyptus-gumnut/eucalyptus-gumnut.toml".spec_bytes();
            let directory = directory@;
            let separated = directory.len() > 0 && directory.last() != 0x2f;
            &&& directory.is_prefix_of(r@)
            &&& name.is_suffix_of(r@)
            &&& r@.len() == directory.len() + name.len() + if separated {
                1int
            } else {
                0
            }
            &&& directory.len() > 0 ==> r@[r@.len() - name.len() - 1] == 0x2f
        }),
{
    let name = "eucalyptus-gumnut/eucalyptus-gumnut.toml";
    reveal_strlit("eucalyptus-gumnut/eucalyptus-gumnut.toml");
    is_ascii_spec_bytes(name);
    assert(name.spec_bytes()[0] == name@[0] as u8);
}

/// Where nothing is set, an item stays for three seconds, and the items are set as they
/// are by themselves.
pub proof fn law_settings_have_defaults<Seconds: From<u8>, PowerProfile: Default>(
    r: Config<Seconds, PowerProfile>,
    item: ItemConfig<PowerProfile>,
)
    requires
        call_ensures(<Config<Seconds, PowerProfile> as Default>::default, (), r),
        call_ensures(<ItemConfig<PowerProfile> as Default>::default, (), item),
    ensures
        call_ensures(<Seconds as From<u8>>::from, (3u8,), r.hide_delay),
        call_ensures(<PowerProfile as Default>::default, (), r.item.power_profile),
        call_ensures(<PowerProfile as Default>::default, (), item.power_profile),
{
}

} // verus!
