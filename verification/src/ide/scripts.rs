//! The shell scripts by which a product is started from a scripts directory,
//! and the icon name under which it is known, edition by edition.

use vstd::prelude::*;
use crate::text::{append_chars, chars_of, spells, string_of};

verus! {

/// One product edition that launcher scripts exist for.
#[allow(clippy::upper_case_acronyms)]
#[derive(Debug, Clone, Copy, PartialEq, Eq, Hash, Structural)]
pub enum IDE {
    Aqua,
    CLion,
    IntelliJIDEA,
    IntelliJIDEACommiunity,
    PHPStorm,
    PyCharm,
    PyCharmCommiunity,
    Rider,
    WebStorm,
    GoLand,
    DataGrip,
    DataSpell,
    RubyMine,
    AndroidStudio,
    RustRover,
    MPS,
}

/// The names of an edition's launcher scripts, and its icon name.
#[derive(Debug, Clone, PartialEq, Eq, Hash)]
pub struct IDEData {
    // The scripts are looked up in one directory, given by the caller.
    pub shell_script_names: Vec<String>,
    pub icon_name: String,
}

/// The text held by an `IDEData`.
pub struct ScriptsModel {
    pub shell_script_names: Seq<Seq<char>>,
    pub icon_name: Seq<char>,
}

impl View for IDEData {
    type V = ScriptsModel;

    open spec fn view(&self) -> ScriptsModel {
        ScriptsModel {
            shell_script_names: self.shell_script_names@.map_values(|name: String| name@),
            icon_name: self.icon_name@,
        }
    }
}

/// The one script name and the icon name of each edition.
pub open spec fn data_of(ide: IDE) -> ScriptsModel {
    let (script, icon) = match ide {
        IDE::Rider => ("rider"@, "rider"@),
        IDE::AndroidStudio => ("studio"@, "android-studio"@),
        IDE::CLion => ("clion"@, "clion"@),
        IDE::RustRover => ("rustrover"@, "rustrover"@),
        IDE::WebStorm => ("webstorm"@, "webstorm"@),
        IDE::RubyMine => ("rubymine"@, "rubymine"@),
        IDE::PyCharmCommiunity => ("pycharm"@, "pycharm-community"@),
        IDE::PyCharm => ("pycharm"@, "pycharm"@),
        IDE::PHPStorm => ("phpstorm"@, "phpstorm"@),
        IDE::MPS => ("mps"@, "mps"@),
        IDE::IntelliJIDEA => ("idea"@, "intellij-idea"@),
        IDE::IntelliJIDEACommiunity => ("idea"@, "intellij-idea-community"@),
        IDE::DataSpell => ("dataspell"@, "dataspell"@),
        IDE::DataGrip => ("datagrip"@, "datagrip"@),
        IDE::Aqua => ("aqua"@, "aqua"@),
        IDE::GoLand => ("goland"@, "goland"@),
    };
    ScriptsModel { shell_script_names: seq![script], icon_name: icon }
}

/// The edition that a product code stands for. MPS, DataSpell and Aqua have
/// no code here.
pub open spec fn edition_of_code(code: Seq<char>) -> Option<IDE> {
    if code == "RD"@ {
        Some(IDE::Rider)
    } else if code == "AI"@ {
        Some(IDE::AndroidStudio)
    } else if code == "CL"@ {
        Some(IDE::CLion)
    } else if code == "RR"@ {
        Some(IDE::RustRover)
    } else if code == "WS"@ {
        Some(IDE::WebStorm)
    } else if code == "RM"@ {
        Some(IDE::RubyMine)
    } else if code == "PC"@ {
        Some(IDE::PyCharmCommiunity)
    } else if code == "PY"@ {
        Some(IDE::PyCharm)
    } else if code == "PS"@ {
        Some(IDE::PHPStorm)
    } else if code == "IU"@ {
        Some(IDE::IntelliJIDEA)
    } else if code == "IC"@ {
        Some(IDE::IntelliJIDEACommiunity)
    } else if code == "DB"@ {
        Some(IDE::DataGrip)
    } else if code == "GO"@ {
        Some(IDE::GoLand)
    } else {
        None
    }
}

/// The names joined by commas.
pub open spec fn comma_separated(names: Seq<Seq<char>>) -> Seq<char>
    decreases names.len(),
{
    if names.len() == 0 {
        Seq::empty()
    } else if names.len() == 1 {
        names[0]
    } else {
        comma_separated(names.drop_last()) + seq![','] + names.last()
    }
}

/// The glob pattern that matches any one of the names: the names between
/// braces, separated by commas.
pub open spec fn alternatives_pattern(names: Seq<Seq<char>>) -> Seq<char> {
    seq!['{'] + comma_separated(names) + seq!['}']
}

impl IDEData {
    /// The data made of the given script names and icon name.
    pub fn new(shell_script_names: Vec<&str>, icon_name: &str) -> (data: Self)
        ensures
            data@.shell_script_names == shell_script_names@.map_values(|name: &str| name@),
            data@.icon_name == icon_name@,
    {
        let mut names: Vec<String> = Vec::new();
        let mut i: usize = 0;
        while i < shell_script_names.len()
            invariant
                i <= shell_script_names.len(),
                names@.len() == i,
                forall|k: int| 0 <= k < i ==> (#[trigger] names@[k])@ == shell_script_names@[k]@,
            decreases shell_script_names.len() - i,
        {
            names.push(shell_script_names[i].to_owned());
            i += 1;
        }
        let data = Self { shell_script_names: names, icon_name: icon_name.to_owned() };
        assert(data@.shell_script_names =~= shell_script_names@.map_values(|name: &str| name@));
        data
    }

    /// The glob pattern that matches any of the script names.
    pub fn shell_script_pattern(&self) -> (pattern: String)
        ensures
            pattern@ == alternatives_pattern(self@.shell_script_names),
    {
        let ghost names = self@.shell_script_names;
        let mut out: Vec<char> = Vec::new();
        out.push('{');
        let mut i: usize = 0;
        while i < self.shell_script_names.len()
            invariant
                i <= self.shell_script_names.len(),
                names == self@.shell_script_names,
                out@ == seq!['{'] + comma_separated(names.take(i as int)),
            decreases self.shell_script_names.len() - i,
        {
            let ghost before = out@;
            if i > 0 {
                out.push(',');
            }
            let name = chars_of(self.shell_script_names[i].as_str());
            append_chars(&mut out, &name);
            proof {
                let upto = names.take(i + 1);
                assert(upto.drop_last() == names.take(i as int));
                assert(upto.last() == name@);
                if i == 0 {
                    assert(names.take(0).len() == 0);
                    assert(comma_separated(upto) == name@);
                } else {
                    assert(comma_separated(upto) == comma_separated(names.take(i as int))
                        + seq![','] + name@);
                }
                assert(out@ == seq!['{'] + comma_separated(upto));
            }
            i += 1;
        }
        assert(names.take(names.len() as int) == names);
        out.push('}');
        string_of(&out)
    }
}

impl IDE {
    /// The script names and the icon name of the edition.
    pub fn get_data(&self) -> (data: IDEData)
        ensures
            data@ == data_of(*self),
    {
        let (script, icon) = match self {
            IDE::Rider => ("rider", "rider"),
            IDE::AndroidStudio => ("studio", "android-studio"),
            IDE::CLion => ("clion", "clion"),
            IDE::RustRover => ("rustrover", "rustrover"),
            IDE::WebStorm => ("webstorm", "webstorm"),
            IDE::RubyMine => ("rubymine", "rubymine"),
            IDE::PyCharmCommiunity => ("pycharm", "pycharm-community"),
            IDE::PyCharm => ("pycharm", "pycharm"),
            IDE::PHPStorm => ("phpstorm", "phpstorm"),
            IDE::MPS => ("mps", "mps"),
            IDE::IntelliJIDEA => ("idea", "intellij-idea"),
            IDE::IntelliJIDEACommiunity => ("idea", "intellij-idea-community"),
            IDE::DataSpell => ("dataspell", "dataspell"),
            IDE::DataGrip => ("datagrip", "datagrip"),
            IDE::Aqua => ("aqua", "aqua"),
            IDE::GoLand => ("goland", "goland"),
        };
        let mut names: Vec<&str> = Vec::new();
        names.push(script);
        let data = IDEData::new(names, icon);
        assert(data@.shell_script_names =~= seq![script@]);
        data
    }

    /// Reads a product code.
    pub fn from_code(code: &str) -> (ide: Option<Self>)
        ensures
            ide == edition_of_code(code@),
    {
        let c = chars_of(code);
        if spells(&c, "RD") {
            Some(IDE::Rider)
        } else if spells(&c, "AI") {
            Some(IDE::AndroidStudio)
        } else if spells(&c, "CL") {
            Some(IDE::CLion)
        } else if spells(&c, "RR") {
            Some(IDE::RustRover)
        } else if spells(&c, "WS") {
            Some(IDE::WebStorm)
        } else if spells(&c, "RM") {
            Some(IDE::RubyMine)
        } else if spells(&c, "PC") {
            Some(IDE::PyCharmCommiunity)
        } else if spells(&c, "PY") {
            Some(IDE::PyCharm)
        } else if spells(&c, "PS") {
            Some(IDE::PHPStorm)
        } else if spells(&c, "IU") {
            Some(IDE::IntelliJIDEA)
        } else if spells(&c, "IC") {
            Some(IDE::IntelliJIDEACommiunity)
        } else if spells(&c, "DB") {
            Some(IDE::DataGrip)
        } else if spells(&c, "GO") {
            Some(IDE::GoLand)
        } else {
            None
        }
    }
}

} // verus!
