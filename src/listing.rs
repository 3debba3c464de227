use vstd::prelude::*;
use vstd::string::*;

use crate::package::{InstalledPackage, PackageId, PackageType};
use crate::tool::texts;

verus! {

/// A line without the carriage return that ended it, if one did.
pub open spec fn strip_cr(line: Seq<char>) -> Seq<char> {
    if line.len() > 0 && line.last() == '\r' {
        line.drop_last()
    } else {
        line
    }
}

/// The lines of `s` from index `i` on, where `cur` is the part of the current
/// line that lies before `i`. A line ends at `'\n'`, or at `"\r\n"`, which is
/// dropped with it; the last line may lack its ending, and an empty text has no
/// lines.
pub open spec fn lines_acc(s: Seq<char>, i: int, cur: Seq<char>) -> Seq<Seq<char>>
    decreases s.len() - i,
{
    if i < 0 || i >= s.len() {
        if cur.len() == 0 {
            seq![]
        } else {
            seq![cur]
        }
    } else if s[i] == '\n' {
        seq![strip_cr(cur)] + lines_acc(s, i + 1, seq![])
    } else {
        lines_acc(s, i + 1, cur.push(s[i]))
    }
}

/// The lines of a text.
pub open spec fn lines_of(s: Seq<char>) -> Seq<Seq<char>> {
    lines_acc(s, 0, seq![])
}

/// The packages that a listing of installed packages of `kind` names, one
/// per line.
pub open spec fn listed(stdout: Seq<char>, kind: PackageType) -> Seq<PackageId> {
    lines_of(stdout).map_values(|l: Seq<char>| PackageId { name: l, kind })
}

/// The name and kind of each package of a list.
pub open spec fn ids(v: Seq<InstalledPackage>) -> Seq<PackageId> {
    v.map_values(|p: InstalledPackage| p@)
}

/// Splits the manager's output into its lines, each a package name.
pub fn package_lines(text: &str) -> (r: Vec<String>)
    ensures
        texts(r@) == lines_of(text@),
{
    let n = text.unicode_len();
    let mut r: Vec<String> = Vec::new();
    let mut start: usize = 0;
    let mut i: usize = 0;
    assert(text@.subrange(0, 0) =~= Seq::<char>::empty());
    assert(texts(r@) + lines_of(text@) =~= lines_of(text@));
    while i < n
        invariant
            n == text@.len(),
            start <= i <= n,
            texts(r@) + lines_acc(text@, i as int, text@.subrange(start as int, i as int)) == lines_of(text@),
        decreases n - i,
    {
        let s = Ghost(text@);
        let c = text.get_char(i);
        if c == '\n' {
            let cur = Ghost(s@.subrange(start as int, i as int));
            let end = if i > start && text.get_char(i - 1) == '\r' {
                i - 1
            } else {
                i
            };
            let line = text.substring_char(start, end);
            assert(line@ == strip_cr(cur@));
            let ghost before = r@;
            r.push(line.to_owned());
            assert(texts(r@) =~= texts(before).push(line@));
            assert(s@.subrange(i + 1, i + 1) =~= Seq::<char>::empty());
            assert(texts(r@) + lines_acc(s@, i + 1, seq![]) =~= texts(before) + lines_acc(s@, i as int, cur@));
            start = i + 1;
        } else {
            assert(s@.subrange(start as int, i + 1) =~= s@.subrange(start as int, i as int).push(c));
        }
        i = i + 1;
    }
    if start < n {
        let line = text.substring_char(start, n);
        let ghost before = r@;
        r.push(line.to_owned());
        assert(texts(r@) =~= texts(before).push(line@));
        assert(texts(r@) =~= texts(before) + seq![line@]);
    } else {
        assert(texts(r@) =~= texts(r@) + lines_acc(text@, i as int, text@.subrange(start as int, i as int)));
    }
    r
}

/// The installed packages of `kind` that a listing names, one per line of
/// its output.
pub fn list(package_type: PackageType, stdout: &str) -> (r: Vec<InstalledPackage>)
    ensures
        ids(r@) == listed(stdout@, package_type),
{
    let names = package_lines(stdout);
    let mut r: Vec<InstalledPackage> = Vec::new();
    let mut i: usize = 0;
    while i < names.len()
        invariant
            i <= names@.len(),
            texts(names@) == lines_of(stdout@),
            ids(r@) =~= listed(stdout@, package_type).subrange(0, i as int),
        decreases names@.len() - i,
    {
        let ghost before = r@;
        r.push(InstalledPackage::new_without_check(names[i].as_str(), package_type));
        assert(texts(names@)[i as int] == names@[i as int]@);
        assert(texts(names@).len() == names@.len());
        assert(listed(stdout@, package_type).len() == names@.len());
        assert(listed(stdout@, package_type)[i as int] == PackageId { name: names@[i as int]@, kind: package_type });
        assert(ids(r@) =~= ids(before).push(PackageId { name: names@[i as int]@, kind: package_type }));
        assert(ids(r@) =~= listed(stdout@, package_type).subrange(0, i + 1));
        i = i + 1;
    }
    assert(listed(stdout@, package_type).len() == names@.len());
    assert(ids(r@) =~= listed(stdout@, package_type));
    r
}

/// The formula listing followed by the cask listing.
pub fn join_listings<T>(formulae: Vec<T>, casks: Vec<T>) -> (r: Vec<T>)
    ensures
        r@ == formulae@ + casks@,
{
    let mut r = formulae;
    let mut rest = casks;
    r.append(&mut rest);
    r
}

/// A listing of both kinds holds the whole formula listing, then the whole
/// cask listing, and so as many packages as the two together.
pub proof fn listing_of_both_kinds(
    formula_out: &str,
    cask_out: &str,
    formulae: Vec<InstalledPackage>,
    casks: Vec<InstalledPackage>,
    all: Vec<InstalledPackage>,
)
    requires
        call_ensures(list, (PackageType::Formula, formula_out), formulae),
        call_ensures(list, (PackageType::Cask, cask_out), casks),
        call_ensures(join_listings::<InstalledPackage>, (formulae, casks), all),
    ensures
        all@.subrange(0, formulae@.len() as int) == formulae@,
        all@.subrange(formulae@.len() as int, all@.len() as int) == casks@,
        all@.len() == listed(formula_out@, PackageType::Formula).len() + listed(cask_out@, PackageType::Cask).len(),
{
    assert(all@.subrange(0, formulae@.len() as int) =~= formulae@);
    assert(all@.subrange(formulae@.len() as int, all@.len() as int) =~= casks@);
    assert(ids(formulae@).len() == formulae@.len());
    assert(ids(casks@).len() == casks@.len());
}

} // verus!
