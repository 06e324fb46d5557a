//! Where captures are saved.

use vstd::prelude::*;

verus! {

/// A directory for a capture: a folder of a directory, and in it one that is named
/// after the time.
pub struct CapturePath<D> {
    pub dir: D,
    pub folder: &'static str,
    /// In ASCII.
    pub name: Vec<u8>,
}

/// A number in decimal digits, in ASCII.
pub open spec fn decimal(n: nat) -> Seq<u8>
    decreases n,
{
    if n < 10 {
        seq![(48 + n) as u8]
    } else {
        decimal(n / 10).push((48 + n % 10) as u8)
    }
}

/// The directories that are tried, in order: the current one, where it is known, and
/// that for temporary files.
pub open spec fn capture_dirs<D>(current: Option<D>, temp: D) -> Seq<D> {
    match current {
        Some(current) => seq![current, temp],
        None => seq![temp],
    }
}

fn decimal_digits(n: u64) -> (r: Vec<u8>)
    ensures
        r@ == decimal(n as nat),
    decreases n,
{
    if n < 10 {
        let mut digits: Vec<u8> = Vec::new();
        digits.push(48 + n as u8);
        assert(digits@ =~= decimal(n as nat));
        digits
    } else {
        let mut digits = decimal_digits(n / 10);
        digits.push(48 + (n % 10) as u8);
        digits
    }
}

/// The next directory to be created for a capture, once `failed` could not be: in each
/// of the directories in turn, `webrender-captures` and in it the seconds since the
/// epoch, zero before it. None is left once all have failed; then nothing is saved.
pub fn capture_step<D>(current: Option<D>, temp: D, seconds: Option<u64>, failed: usize) -> (r:
    Option<CapturePath<D>>)
    ensures
        r is Some <==> failed < capture_dirs(current, temp).len(),
        r matches Some(path) ==> {
            &&& path.dir == capture_dirs(current, temp)[failed as int]
            &&& path.folder@ == "webrender-captures"@
            &&& path.name@ == decimal(
                match seconds {
                    Some(seconds) => seconds as nat,
                    None => 0,
                },
            )
        },
{
    let dir = match current {
        Some(current) => if failed == 0 {
            current
        } else if failed == 1 {
            temp
        } else {
            return None;
        },
        None => if failed == 0 {
            temp
        } else {
            return None;
        },
    };
    let name = decimal_digits(
        match seconds {
            Some(seconds) => seconds,
            None => 0,
        },
    );
    Some(CapturePath { dir, folder: "webrender-captures", name })
}

/// The directory that a capture ends up in, where `created` says which of the
/// directories could be created and the first `failed` could not.
pub open spec fn captured_in<D>(dirs: Seq<D>, created: Seq<bool>, failed: nat) -> Option<D>
    decreases dirs.len() - failed,
{
    if failed >= dirs.len() {
        None
    } else if created[failed as int] {
        Some(dirs[failed as int])
    } else {
        captured_in(dirs, created, failed + 1)
    }
}

/// A capture goes to the current directory if that is known and will do, else to the
/// one for temporary files if that will do, and else nowhere.
pub proof fn captures_prefer_the_current_directory<D>(
    current: Option<D>,
    temp: D,
    created: Seq<bool>,
)
    requires
        created.len() == capture_dirs(current, temp).len(),
    ensures
        captured_in(capture_dirs(current, temp), created, 0) == if current is Some && created[0] {
            current
        } else if created.last() {
            Some(temp)
        } else {
            None
        },
{
    reveal_with_fuel(captured_in, 3);
}

} // verus!
