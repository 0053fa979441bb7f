use vstd::prelude::*;

use crate::subst::strings_view;

verus! {

/// One saved, reusable invocation of the QEMU binary.
#[derive(Debug, Clone)]
pub struct QemuConfig {
    /// Path or name of the binary to launch.
    pub qemu_bin: String,
    /// The argument vector, in order.
    pub args: Vec<String>,
    /// A free-text description; absent is distinct from empty.
    pub desc: Option<String>,
    /// The binary's version detected when the configuration was saved.
    pub qemu_version: Option<String>,
}

/// The mathematical value of a configuration record.
pub struct ConfigView {
    pub qemu_bin: Seq<char>,
    pub args: Seq<Seq<char>>,
    pub desc: Option<Seq<char>>,
    pub qemu_version: Option<Seq<char>>,
}

pub open spec fn opt_view(o: Option<String>) -> Option<Seq<char>> {
    match o {
        Some(s) => Some(s@),
        None => None,
    }
}

impl View for QemuConfig {
    type V = ConfigView;

    open spec fn view(&self) -> ConfigView {
        ConfigView {
            qemu_bin: self.qemu_bin@,
            args: strings_view(self.args@),
            desc: opt_view(self.desc),
            qemu_version: opt_view(self.qemu_version),
        }
    }
}

/// A record with the description replaced by `desc` when one is given.
pub open spec fn with_description_spec(c: ConfigView, desc: Option<Seq<char>>) -> ConfigView {
    match desc {
        Some(d) => ConfigView { desc: Some(d), ..c },
        None => c,
    }
}

/// A copy of `o` with equal contents.
pub fn copy_opt_string(o: &Option<String>) -> (r: Option<String>)
    ensures
        opt_view(r) == opt_view(*o),
{
    match o {
        Some(s) => Some(s.clone()),
        None => None,
    }
}

/// A copy of `v` with equal contents.
pub fn copy_strings(v: &Vec<String>) -> (r: Vec<String>)
    ensures
        strings_view(r@) == strings_view(v@),
{
    let mut r: Vec<String> = Vec::new();
    let mut i: usize = 0;
    while i < v.len()
        invariant
            i <= v.len(),
            r@.len() == i,
            forall|j: int| 0 <= j < i ==> (#[trigger] r@[j])@ == v@[j]@,
        decreases v.len() - i,
    {
        r.push(v[i].clone());
        i = i + 1;
    }
    assert(strings_view(r@) =~= strings_view(v@));
    r
}

impl QemuConfig {
    pub fn new(
        qemu_bin: String,
        args: Vec<String>,
        desc: Option<String>,
        qemu_version: Option<String>,
    ) -> (r: QemuConfig)
        ensures
            r.qemu_bin == qemu_bin,
            r.args == args,
            r.desc == desc,
            r.qemu_version == qemu_version,
    {
        QemuConfig { qemu_bin, args, desc, qemu_version }
    }

    /// A record may be saved only with a binary to launch.
    pub open spec fn is_complete(&self) -> bool {
        self.qemu_bin@.len() > 0
    }

    /// Whether the record names a binary to launch.
    pub fn has_binary(&self) -> (r: bool)
        ensures
            r == self.is_complete(),
    {
        self.qemu_bin.unicode_len() > 0
    }

    /// A record with the same contents.
    pub fn duplicate(&self) -> (r: QemuConfig)
        ensures
            r@ == self@,
    {
        QemuConfig {
            qemu_bin: self.qemu_bin.clone(),
            args: copy_strings(&self.args),
            desc: copy_opt_string(&self.desc),
            qemu_version: copy_opt_string(&self.qemu_version),
        }
    }

    /// The record with its description replaced by `desc`, or kept as it is
    /// when `desc` is absent.
    pub fn with_description(self, desc: Option<String>) -> (r: QemuConfig)
        ensures
            r@ == with_description_spec(self@, opt_view(desc)),
    {
        match desc {
            Some(d) => QemuConfig { desc: Some(d), ..self },
            None => self,
        }
    }
}

} // verus!
