use vstd::prelude::*;
use vstd::string::*;

use crate::json::{parse_json, parsed_json, JsonValue};
use crate::tool::ToolOutput;

verus! {

/// The two kinds of package the manager handles.
#[derive(Clone, Copy, PartialEq, Eq, Debug, Structural)]
pub enum PackageType {
    Formula,
    Cask,
}

/// The command-line flag that scopes a command to one kind.
pub open spec fn flag_text(kind: PackageType) -> Seq<char> {
    match kind {
        PackageType::Formula => "--formula"@,
        PackageType::Cask => "--cask"@,
    }
}

impl PackageType {
    pub fn flag(&self) -> (r: &'static str)
        ensures
            r@ == flag_text(*self),
    {
        match self {
            PackageType::Formula => "--formula",
            PackageType::Cask => "--cask",
        }
    }
}

/// A package's identity: its name and kind.
pub struct PackageId {
    pub name: Seq<char>,
    pub kind: PackageType,
}

/// A package together with whether it is installed.
pub struct PackageState {
    pub installed: bool,
    pub name: Seq<char>,
    pub kind: PackageType,
}

/// A package that is installed.
#[derive(PartialEq, Eq, Debug)]
pub struct InstalledPackage {
    pub name: String,
    pub package_type: PackageType,
}

/// A package that exists but is not installed.
#[derive(PartialEq, Eq, Debug)]
pub struct NotInstalledPackage {
    pub name: String,
    pub package_type: PackageType,
}

/// A package in either state.
#[derive(PartialEq, Eq, Debug)]
pub enum Package {
    Installed(InstalledPackage),
    NotInstalled(NotInstalledPackage),
}

/// The manager could not look the package up; `msg` is its diagnostic text.
#[derive(PartialEq, Eq, Debug)]
pub struct PackageCreateError {
    pub msg: String,
}

/// Why a package could not be had in the installed state.
#[derive(PartialEq, Eq, Debug)]
pub enum InstalledPackageCreateError {
    CreateError(PackageCreateError),
    NotInstalled,
}

impl PackageCreateError {
    pub fn message(&self) -> (r: &str)
        ensures
            r@ == self.msg@,
    {
        self.msg.as_str()
    }
}

/// The text that describes an `InstalledPackageCreateError`.
pub open spec fn create_error_text(e: InstalledPackageCreateError) -> Seq<char> {
    match e {
        InstalledPackageCreateError::CreateError(c) => "The package couldn't create because "@ + c.msg@,
        InstalledPackageCreateError::NotInstalled => "The package was not installed"@,
    }
}

impl InstalledPackageCreateError {
    pub fn message(&self) -> (r: String)
        ensures
            r@ == create_error_text(*self),
    {
        match self {
            InstalledPackageCreateError::CreateError(c) => {
                String::from_str("The package couldn't create because ").concat(c.msg.as_str())
            },
            InstalledPackageCreateError::NotInstalled => String::from_str("The package was not installed"),
        }
    }
}

impl View for InstalledPackage {
    type V = PackageId;

    open spec fn view(&self) -> PackageId {
        PackageId { name: self.name@, kind: self.package_type }
    }
}

impl View for NotInstalledPackage {
    type V = PackageId;

    open spec fn view(&self) -> PackageId {
        PackageId { name: self.name@, kind: self.package_type }
    }
}

impl View for Package {
    type V = PackageState;

    open spec fn view(&self) -> PackageState {
        match self {
            Package::Installed(p) => PackageState { installed: true, name: p.name@, kind: p.package_type },
            Package::NotInstalled(p) => PackageState { installed: false, name: p.name@, kind: p.package_type },
        }
    }
}

/// Whether every item of an array is an object.
pub open spec fn all_objects(items: Seq<JsonValue>) -> bool {
    forall|j: int| 0 <= j < items.len() ==> items[j] is Object
}

/// What the manager's info document says: the kind of the package and whether
/// it is installed. The document is an object whose `formulae` and `casks` are
/// arrays of objects; the first formula entry wins over the first cask entry.
/// A formula is installed when its `installed` member is a non-empty array, a
/// cask when its `installed` member is a string. Nothing where the document
/// has another shape or names no entry.
pub open spec fn info_state(doc: JsonValue) -> Option<(PackageType, bool)> {
    match (doc.member("formulae"@), doc.member("casks"@)) {
        (Some(JsonValue::Array(formulae)), Some(JsonValue::Array(casks))) => {
            if !all_objects(formulae@) || !all_objects(casks@) {
                None
            } else if formulae@.len() > 0 {
                match formulae@[0].member("installed"@) {
                    Some(JsonValue::Array(versions)) => Some((PackageType::Formula, versions@.len() > 0)),
                    _ => None,
                }
            } else if casks@.len() > 0 {
                match casks@[0].member("installed"@) {
                    Some(v) => Some((PackageType::Cask, v is Str)),
                    None => None,
                }
            } else {
                None
            }
        },
        _ => None,
    }
}

/// Whether a lookup scoped by `hint` may answer with a package of `kind`.
pub open spec fn in_scope(hint: Option<PackageType>, kind: PackageType) -> bool {
    hint is None || hint == Some(kind)
}

/// The state of the package `name` by the info document `doc`, which the
/// manager produced for a lookup scoped by `hint`. Nothing where the document
/// breaks the manager's promises, an entry of a kind outside the scope included.
pub open spec fn classified(name: Seq<char>, hint: Option<PackageType>, doc: JsonValue) -> Option<PackageState> {
    match info_state(doc) {
        Some((kind, installed)) => if in_scope(hint, kind) {
            Some(PackageState { installed, name, kind })
        } else {
            None
        },
        None => None,
    }
}

/// The outcome of looking up `name` with a scope of `hint`, given what the
/// info command left behind: its diagnostic where it failed, the package's
/// state where it succeeded, nothing where its output breaks its promises.
pub open spec fn lookup_outcome(name: Seq<char>, hint: Option<PackageType>, output: ToolOutput) -> Option<Result<PackageState, Seq<char>>> {
    if !output.success {
        Some(Err(output.stderr@))
    } else {
        match parsed_json(output.stdout@) {
            Some(doc) => match classified(name, hint, doc) {
                Some(state) => Some(Ok(state)),
                None => None,
            },
            None => None,
        }
    }
}

pub open spec fn lookup_view(r: Option<Result<Package, PackageCreateError>>) -> Option<Result<PackageState, Seq<char>>> {
    match r {
        Some(Ok(p)) => Some(Ok(p@)),
        Some(Err(e)) => Some(Err(e.msg@)),
        None => None,
    }
}

fn all_objects_exec(items: &Vec<JsonValue>) -> (r: bool)
    ensures
        r == all_objects(items@),
{
    let mut i: usize = 0;
    while i < items.len()
        invariant
            i <= items@.len(),
            forall|j: int| 0 <= j < i ==> items@[j] is Object,
        decreases items@.len() - i,
    {
        match &items[i] {
            JsonValue::Object(_) => {},
            _ => return false,
        }
        i = i + 1;
    }
    true
}

/// Reads the kind and the installed state out of an info document.
pub fn info_state_of(doc: &JsonValue) -> (r: Option<(PackageType, bool)>)
    ensures
        r == info_state(*doc),
{
    let formulae = match doc.get("formulae") {
        Some(JsonValue::Array(a)) => a,
        _ => return None,
    };
    let casks = match doc.get("casks") {
        Some(JsonValue::Array(a)) => a,
        _ => return None,
    };
    if !all_objects_exec(formulae) || !all_objects_exec(casks) {
        return None;
    }
    if formulae.len() > 0 {
        match formulae[0].get("installed") {
            Some(JsonValue::Array(versions)) => Some((PackageType::Formula, versions.len() > 0)),
            _ => None,
        }
    } else if casks.len() > 0 {
        match casks[0].get("installed") {
            Some(JsonValue::Str(_)) => Some((PackageType::Cask, true)),
            Some(_) => Some((PackageType::Cask, false)),
            None => None,
        }
    } else {
        None
    }
}

impl InstalledPackage {
    /// An installed package, taken on the caller's word (a listing of
    /// installed packages, a successful install).
    pub fn new_without_check(name: &str, package_type: PackageType) -> (r: Self)
        ensures
            r@ == (PackageId { name: name@, kind: package_type }),
    {
        InstalledPackage { name: name.to_owned(), package_type }
    }

    /// The package `name`, if the info command's outcome shows it installed.
    pub fn new(name: &str, package_type: Option<PackageType>, output: ToolOutput) -> (r: Option<Result<Self, InstalledPackageCreateError>>)
        ensures
            match lookup_outcome(name@, package_type, output) {
                Some(Ok(state)) => if state.installed {
                    r matches Some(Ok(p)) && p@ == (PackageId { name: state.name, kind: state.kind })
                } else {
                    r == Some(Err::<Self, InstalledPackageCreateError>(InstalledPackageCreateError::NotInstalled))
                },
                Some(Err(msg)) => r matches Some(Err(InstalledPackageCreateError::CreateError(e))) && e.msg@ == msg,
                None => r is None,
            },
    {
        match Package::new(name, package_type, output) {
            Some(Ok(Package::Installed(p))) => Some(Ok(p)),
            Some(Ok(Package::NotInstalled(_))) => Some(Err(InstalledPackageCreateError::NotInstalled)),
            Some(Err(e)) => Some(Err(InstalledPackageCreateError::CreateError(e))),
            None => None,
        }
    }
}

impl NotInstalledPackage {
    /// A package known to exist and not to be installed, taken on the
    /// caller's word (a successful uninstall).
    pub fn new_without_check(name: &str, package_type: PackageType) -> (r: Self)
        ensures
            r@ == (PackageId { name: name@, kind: package_type }),
    {
        NotInstalledPackage { name: name.to_owned(), package_type }
    }
}

impl Package {
    /// The state of the package `name` by an info document that the manager
    /// produced for a lookup scoped by `package_type`.
    pub fn from_info(name: &str, package_type: Option<PackageType>, doc: &JsonValue) -> (r: Option<Package>)
        ensures
            match r {
                Some(p) => classified(name@, package_type, *doc) == Some(p@),
                None => classified(name@, package_type, *doc) is None,
            },
    {
        match info_state_of(doc) {
            Some((kind, installed)) => {
                let admitted = match package_type {
                    None => true,
                    Some(k) => k == kind,
                };
                if !admitted {
                    None
                } else if installed {
                    Some(Package::Installed(InstalledPackage::new_without_check(name, kind)))
                } else {
                    Some(Package::NotInstalled(NotInstalledPackage::new_without_check(name, kind)))
                }
            },
            None => None,
        }
    }

    /// Classifies the package `name` from what the info command, scoped by
    /// `package_type`, left behind: the command's diagnostic where it failed,
    /// nothing where its output breaks the manager's promises.
    pub fn new(name: &str, package_type: Option<PackageType>, output: ToolOutput) -> (r: Option<Result<Package, PackageCreateError>>)
        ensures
            lookup_view(r) == lookup_outcome(name@, package_type, output),
    {
        if !output.success {
            return Some(Err(PackageCreateError { msg: output.stderr }));
        }
        match parse_json(output.stdout.as_str()) {
            Some(doc) => match Package::from_info(name, package_type, &doc) {
                Some(p) => Some(Ok(p)),
                None => None,
            },
            None => None,
        }
    }
}

/// Whether an info document names a package both as a formula and as a cask.
pub open spec fn names_both_kinds(doc: JsonValue) -> bool {
    &&& doc.member("formulae"@) matches Some(JsonValue::Array(f)) && f@.len() > 0
    &&& doc.member("casks"@) matches Some(JsonValue::Array(c)) && c@.len() > 0
}

/// A lookup scoped to one kind, of a package that the manager's document shows
/// installed as that kind, gives the package installed, as that kind.
pub proof fn scoped_lookup_of_installed(
    name: &str,
    kind: PackageType,
    output: ToolOutput,
    r: Option<Result<Package, PackageCreateError>>,
)
    requires
        output.success,
        parsed_json(output.stdout@) matches Some(doc) && info_state(doc) == Some((kind, true)),
        call_ensures(Package::new, (name, Some(kind), output), r),
    ensures
        r matches Some(Ok(Package::Installed(p))) && p@ == (PackageId { name: name@, kind }),
{
}

/// A lookup of a package that the manager's document shows to exist, as a kind
/// in the lookup's scope, but not installed, gives the package not installed,
/// as that kind.
pub proof fn lookup_of_not_installed(
    name: &str,
    hint: Option<PackageType>,
    kind: PackageType,
    output: ToolOutput,
    r: Option<Result<Package, PackageCreateError>>,
)
    requires
        output.success,
        parsed_json(output.stdout@) matches Some(doc) && info_state(doc) == Some((kind, false)),
        in_scope(hint, kind),
        call_ensures(Package::new, (name, hint, output), r),
    ensures
        r matches Some(Ok(Package::NotInstalled(p))) && p@ == (PackageId { name: name@, kind }),
{
}

/// An unscoped lookup of a name that the manager knows both as a formula and
/// as a cask classifies the formula.
pub proof fn formula_before_cask(
    name: &str,
    output: ToolOutput,
    r: Option<Result<Package, PackageCreateError>>,
)
    requires
        output.success,
        parsed_json(output.stdout@) matches Some(doc) && names_both_kinds(doc) && info_state(doc) is Some,
        call_ensures(Package::new, (name, None, output), r),
    ensures
        r matches Some(Ok(p)) && p@.kind == PackageType::Formula
            && info_state(parsed_json(output.stdout@)->0) == Some((PackageType::Formula, p@.installed)),
{
}

/// A lookup that the manager rejects, as it rejects a name it does not know,
/// fails with the manager's diagnostic.
pub proof fn lookup_of_unknown(
    name: &str,
    hint: Option<PackageType>,
    output: ToolOutput,
    r: Option<Result<Package, PackageCreateError>>,
)
    requires
        !output.success,
        call_ensures(Package::new, (name, hint, output), r),
    ensures
        r matches Some(Err(e)) && e.msg@ == output.stderr@,
{
}

/// Asking for an installed package that exists but is not installed gives
/// the not-installed error, not a failed lookup.
pub proof fn require_installed_of_not_installed(
    name: &str,
    hint: Option<PackageType>,
    kind: PackageType,
    output: ToolOutput,
    r: Option<Result<InstalledPackage, InstalledPackageCreateError>>,
)
    requires
        output.success,
        parsed_json(output.stdout@) matches Some(doc) && info_state(doc) == Some((kind, false)),
        in_scope(hint, kind),
        call_ensures(InstalledPackage::new, (name, hint, output), r),
    ensures
        r == Some(Err::<InstalledPackage, InstalledPackageCreateError>(InstalledPackageCreateError::NotInstalled)),
{
}

} // verus!
