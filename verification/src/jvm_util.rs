use vstd::prelude::*;
use crate::error::MessageError;
use crate::text::push_str;

verus! {

/// The system properties that the version report shows.
pub struct VersionProperties {
    pub version: Option<String>,
    pub version_date: Option<String>,
    pub vm_specification_version: Option<String>,
    pub runtime_version: Option<String>,
    /// Looked up only when the runtime version is known.
    pub runtime_name: Option<String>,
    pub vm_name: Option<String>,
    pub vm_version: Option<String>,
    pub vm_info: Option<String>,
}

/// The view of an optional string.
pub open spec fn opt_view(o: Option<String>) -> Option<Seq<char>> {
    match o {
        Some(s) => Some(s@),
        None => None,
    }
}

/// The version report: the text written before it stops, and the error it
/// stops with, if any.  The first line gives the Java version, followed by
/// its date and, with a date, the VM specification version; when the
/// runtime version is known, a line with the runtime name and version and a
/// line with the VM name, version and, if known, information follow.
pub open spec fn spec_version_report(p: VersionProperties) -> (Seq<char>, Option<Seq<char>>) {
    match opt_view(p.version) {
        None => (seq![], Some("version is null"@)),
        Some(version) => {
            let line1 = "java version: "@ + version + match (opt_view(p.version_date), opt_view(
                p.vm_specification_version,
            )) {
                (Some(d), Some(v)) => " "@ + d + " "@ + v,
                (Some(d), None) => " "@ + d,
                (None, _) => seq![],
            } + "\n"@;
            match opt_view(p.runtime_version) {
                None => (line1, None),
                Some(rv) => match opt_view(p.runtime_name) {
                    None => (line1, Some("runtime name is null"@)),
                    Some(rn) => {
                        let line2 = rn + " (build "@ + rv + ")\n"@;
                        match (opt_view(p.vm_name), opt_view(p.vm_version)) {
                            (None, _) => (line1 + line2, Some("vm name is null"@)),
                            (Some(_), None) => (line1 + line2, Some("vm version is null"@)),
                            (Some(n), Some(v)) => (
                                line1 + line2 + n + " (build "@ + v + match opt_view(p.vm_info) {
                                    Some(i) => ", "@ + i,
                                    None => seq![],
                                } + ")\n"@,
                                None,
                            ),
                        }
                    },
                },
            }
        },
    }
}

/// The text of the version report and the error that ends it, if any, as
/// `spec_version_report` says.
pub fn version_report(p: &VersionProperties) -> (r: (String, Option<MessageError>))
    ensures
        r.0@ == spec_version_report(*p).0,
        match r.1 {
            Some(e) => spec_version_report(*p).1 == Some(e.msg@),
            None => spec_version_report(*p).1 is None,
        },
{
    let mut out = String::new();
    let version = match &p.version {
        Some(v) => v,
        None => return (out, Some(MessageError::new("version is null"))),
    };
    push_str(&mut out, "java version: ");
    push_str(&mut out, version.as_str());
    if let Some(date) = &p.version_date {
        push_str(&mut out, " ");
        push_str(&mut out, date.as_str());
        if let Some(spec) = &p.vm_specification_version {
            push_str(&mut out, " ");
            push_str(&mut out, spec.as_str());
        }
    }
    push_str(&mut out, "\n");
    let runtime_version = match &p.runtime_version {
        Some(v) => v,
        None => return (out, None),
    };
    let runtime_name = match &p.runtime_name {
        Some(n) => n,
        None => return (out, Some(MessageError::new("runtime name is null"))),
    };
    push_str(&mut out, runtime_name.as_str());
    push_str(&mut out, " (build ");
    push_str(&mut out, runtime_version.as_str());
    push_str(&mut out, ")\n");
    let vm_name = match &p.vm_name {
        Some(n) => n,
        None => return (out, Some(MessageError::new("vm name is null"))),
    };
    let vm_version = match &p.vm_version {
        Some(v) => v,
        None => return (out, Some(MessageError::new("vm version is null"))),
    };
    push_str(&mut out, vm_name.as_str());
    push_str(&mut out, " (build ");
    push_str(&mut out, vm_version.as_str());
    if let Some(info) = &p.vm_info {
        push_str(&mut out, ", ");
        push_str(&mut out, info.as_str());
    }
    push_str(&mut out, ")\n");
    (out, None)
}


/// When the Java version, the runtime version and name and the VM name and
/// version are all known, the report ends without error, begins with the
/// Java version line, and ends with the runtime line
/// `<name> (build <version>)` and the VM line `<name> (build <version>)`
/// (with `, <info>` before the closing parenthesis when the VM information
/// is known), whatever the version date is.
pub proof fn lemma_full_version_report(p: VersionProperties)
    requires
        p.version is Some,
        p.runtime_version is Some,
        p.runtime_name is Some,
        p.vm_name is Some,
        p.vm_version is Some,
    ensures
        ({
            let (text, error) = spec_version_report(p);
            let runtime_line = opt_view(p.runtime_name).unwrap() + " (build "@ + opt_view(
                p.runtime_version,
            ).unwrap() + ")\n"@;
            let vm_line = opt_view(p.vm_name).unwrap() + " (build "@ + opt_view(p.vm_version).unwrap()
                + match opt_view(p.vm_info) {
                Some(i) => ", "@ + i,
                None => seq![],
            } + ")\n"@;
            let head = "java version: "@ + opt_view(p.version).unwrap();
            &&& error is None
            &&& text.len() >= head.len() + runtime_line.len() + vm_line.len()
            &&& text.take(head.len() as int) == head
            &&& text.skip(text.len() - (runtime_line.len() + vm_line.len())) == runtime_line + vm_line
        }),
{
    let (text, error) = spec_version_report(p);
    let runtime_line = opt_view(p.runtime_name).unwrap() + " (build "@ + opt_view(p.runtime_version).unwrap()
        + ")\n"@;
    let vm_line = opt_view(p.vm_name).unwrap() + " (build "@ + opt_view(p.vm_version).unwrap()
        + match opt_view(p.vm_info) {
        Some(i) => ", "@ + i,
        None => seq![],
    } + ")\n"@;
    let head = "java version: "@ + opt_view(p.version).unwrap();
    let rest = match (opt_view(p.version_date), opt_view(p.vm_specification_version)) {
        (Some(d), Some(v)) => " "@ + d + " "@ + v,
        (Some(d), None) => " "@ + d,
        (None, _) => seq![],
    } + "\n"@;
    assert(text =~= head + rest + (runtime_line + vm_line));
    assert(text.take(head.len() as int) =~= head);
    assert(text.skip(text.len() - (runtime_line.len() + vm_line.len())) =~= runtime_line + vm_line);
}

} // verus!
