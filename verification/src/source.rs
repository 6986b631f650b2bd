use vstd::prelude::*;
use vstd::string::StringExecFns;

verus! {

/// What the default-source suggestion needs to know about one disk.
pub struct DiskInfo {
    pub mount_point: String,
    pub removable: bool,
}

/// Mathematical image of a disk.
pub ghost struct DiskModel {
    pub mount_point: Seq<char>,
    pub removable: bool,
}

impl DeepView for DiskInfo {
    type V = DiskModel;

    open spec fn deep_view(&self) -> DiskModel {
        DiskModel { mount_point: self.mount_point@, removable: self.removable }
    }
}

/// Picks the suggested import source from the machine's disks: the first
/// removable disk's mount point, otherwise the last disk's, otherwise an
/// error when there is no disk at all.
pub fn choose_default_source(disks: &Vec<DiskInfo>) -> (r: Result<String, String>)
    ensures
        match r {
            Ok(m) => {
                let d = disks.deep_view();
                if exists|i: int| 0 <= i < d.len() && d[i].removable {
                    exists|i: int|
                        {
                            &&& 0 <= i < d.len()
                            &&& d[i].removable
                            &&& m@ == d[i].mount_point
                            &&& forall|j: int| 0 <= j < i ==> !d[j].removable
                        }
                } else {
                    d.len() > 0 && m@ == d.last().mount_point
                }
            },
            Err(e) => disks@.len() == 0 && e@ == "No disk found"@,
        },
{
    let n = disks.len();
    let mut i: usize = 0;
    while i < n
        invariant
            n == disks@.len(),
            i <= n,
            forall|j: int| 0 <= j < i ==> !disks.deep_view()[j].removable,
        decreases n - i,
    {
        if disks[i].removable {
            proof {
                assert(disks.deep_view()[i as int].removable);
            }
            return Ok(String::from_str(disks[i].mount_point.as_str()));
        }
        proof {
            assert(!disks.deep_view()[i as int].removable);
        }
        i = i + 1;
    }
    if n > 0 {
        Ok(String::from_str(disks[n - 1].mount_point.as_str()))
    } else {
        Err(String::from_str("No disk found"))
    }
}

} // verus!
