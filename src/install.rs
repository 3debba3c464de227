use vstd::prelude::*;

use crate::package::{flag_text, InstalledPackage, NotInstalledPackage, PackageId};
use crate::tool::{action_args, texts, ToolOutput};

verus! {

/// The manager failed to install a package; `msg` is its diagnostic text.
#[derive(PartialEq, Eq, Debug)]
pub struct InstallError {
    pub msg: String,
}

/// The manager failed to uninstall a package; `msg` is its diagnostic text.
#[derive(PartialEq, Eq, Debug)]
pub struct UnInstallError {
    pub msg: String,
}

/// The manager failed to reinstall a package; `msg` is its diagnostic text.
#[derive(PartialEq, Eq, Debug)]
pub struct ReInstallError {
    pub msg: String,
}

/// Where a command on a package succeeded, the package, now in its new state,
/// keeps its name and kind; where it failed, the diagnostic is all that is left.
pub open spec fn moved(id: PackageId, output: ToolOutput) -> Result<PackageId, Seq<char>> {
    if output.success {
        Ok(id)
    } else {
        Err(output.stderr@)
    }
}

impl InstallError {
    pub fn message(&self) -> (r: &str)
        ensures
            r@ == self.msg@,
    {
        self.msg.as_str()
    }
}

impl UnInstallError {
    pub fn message(&self) -> (r: &str)
        ensures
            r@ == self.msg@,
    {
        self.msg.as_str()
    }
}

impl ReInstallError {
    pub fn message(&self) -> (r: &str)
        ensures
            r@ == self.msg@,
    {
        self.msg.as_str()
    }
}

impl NotInstalledPackage {
    /// The arguments of the command that installs this package.
    pub fn install_args(&self) -> (r: Vec<String>)
        ensures
            texts(r@) == seq!["install"@, flag_text(self.package_type), self.name@],
    {
        action_args("install", self.package_type, self.name.as_str())
    }

    /// The package after the install command left `output` behind: installed
    /// where the command succeeded, the command's diagnostic where it failed.
    pub fn install(self, output: ToolOutput) -> (r: Result<InstalledPackage, InstallError>)
        ensures
            match r {
                Ok(p) => moved(self@, output) == Ok::<PackageId, Seq<char>>(p@),
                Err(e) => moved(self@, output) == Err::<PackageId, Seq<char>>(e.msg@),
            },
    {
        if output.success {
            Ok(InstalledPackage::new_without_check(self.name.as_str(), self.package_type))
        } else {
            Err(InstallError { msg: output.stderr })
        }
    }
}

impl InstalledPackage {
    /// The arguments of the command that uninstalls this package.
    pub fn uninstall_args(&self) -> (r: Vec<String>)
        ensures
            texts(r@) == seq!["uninstall"@, flag_text(self.package_type), self.name@],
    {
        action_args("uninstall", self.package_type, self.name.as_str())
    }

    /// The package after the uninstall command left `output` behind: not
    /// installed where the command succeeded, the command's diagnostic where
    /// it failed.
    pub fn uninstall(self, output: ToolOutput) -> (r: Result<NotInstalledPackage, UnInstallError>)
        ensures
            match r {
                Ok(p) => moved(self@, output) == Ok::<PackageId, Seq<char>>(p@),
                Err(e) => moved(self@, output) == Err::<PackageId, Seq<char>>(e.msg@),
            },
    {
        if output.success {
            Ok(NotInstalledPackage::new_without_check(self.name.as_str(), self.package_type))
        } else {
            Err(UnInstallError { msg: output.stderr })
        }
    }

    /// The arguments of the command that reinstalls this package.
    pub fn reinstall_args(&self) -> (r: Vec<String>)
        ensures
            texts(r@) == seq!["reinstall"@, flag_text(self.package_type), self.name@],
    {
        action_args("reinstall", self.package_type, self.name.as_str())
    }

    /// The package after the reinstall command left `output` behind: the very
    /// same value where the command succeeded, the command's diagnostic where
    /// it failed.
    pub fn reinstall(self, output: ToolOutput) -> (r: Result<Self, ReInstallError>)
        ensures
            output.success ==> r == Ok::<Self, ReInstallError>(self),
            !output.success ==> (r matches Err(e) && e.msg@ == output.stderr@),
    {
        if output.success {
            Ok(self)
        } else {
            Err(ReInstallError { msg: output.stderr })
        }
    }
}

/// Installing a package and then uninstalling what came back, both with
/// success, gives a not-installed package of the same name and kind.
pub proof fn install_then_uninstall(
    p: NotInstalledPackage,
    first: ToolOutput,
    installed: Result<InstalledPackage, InstallError>,
    second: ToolOutput,
    back: Result<NotInstalledPackage, UnInstallError>,
)
    requires
        call_ensures(NotInstalledPackage::install, (p, first), installed),
        installed is Ok,
        call_ensures(InstalledPackage::uninstall, (installed->Ok_0, second), back),
        back is Ok,
    ensures
        back->Ok_0@ == p@,
{
}

/// A reinstall that succeeds hands back the package unchanged.
pub proof fn reinstall_keeps_package(
    p: InstalledPackage,
    output: ToolOutput,
    r: Result<InstalledPackage, ReInstallError>,
)
    requires
        call_ensures(InstalledPackage::reinstall, (p, output), r),
        r is Ok,
    ensures
        r->Ok_0 == p,
{
}

} // verus!
