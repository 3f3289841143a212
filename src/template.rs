use vstd::prelude::*;

verus! {

/// The launcher script for a binary named `binary`: a shebang, an empty line,
/// the binary's name, the script's own directory resolved at run time, and an
/// `exec` of the binary found in that directory.
pub open spec fn launch_text(binary: Seq<char>) -> Seq<char> {
    "#! /bin/sh\n\nEXEC=\""@ + binary + "\"\n"@ + "DIR=$(cd \"$(dirname \"$0\")\"; pwd)\n"@
        + "exec \"$DIR/$EXEC\"\n"@
}

/// The two lines that name the bundle's icon file in the descriptor.
pub open spec fn icon_entry(icon: Seq<char>) -> Seq<char> {
    "\t\t<key>CFBundleIconFile</key>\n"@ + "\t\t<string>"@ + icon + "</string>\n"@
}

/// The descriptor: the template verbatim, the icon entry when an icon is
/// named, and the closing tags.
pub open spec fn plist_text(template: Seq<char>, icon: Option<Seq<char>>) -> Seq<char> {
    let body = match icon {
        Some(i) => template + icon_entry(i),
        None => template,
    };
    body + "\t</dict>\n</plist>"@
}

/// The text of the launcher script that runs the sibling file `binary`.
pub fn create_launch_context(binary: &str) -> (r: String)
    ensures
        r@ == launch_text(binary@),
{
    let mut s = String::from_str("#! /bin/sh\n\nEXEC=\"");
    s.append(binary);
    s.append("\"\n");
    s.append("DIR=$(cd \"$(dirname \"$0\")\"; pwd)\n");
    s.append("exec \"$DIR/$EXEC\"\n");
    s
}

/// The text of the bundle's descriptor, built from the property-list
/// `template` (which stops before the closing tags) and the optional icon
/// file name.
pub fn create_plist(template: &str, icon: Option<&str>) -> (r: String)
    ensures
        r@ == plist_text(template@, match icon {
            Some(i) => Some(i@),
            None => None,
        }),
{
    let mut s = String::from_str(template);
    match icon {
        Some(value) => {
            s.append("\t\t<key>CFBundleIconFile</key>\n");
            s.append("\t\t<string>");
            s.append(value);
            s.append("</string>\n");
        },
        None => {},
    }
    s.append("\t</dict>\n</plist>");
    proof {
        if let Some(i) = icon {
            assert(template@ + icon_entry(i@) =~= template@ + "\t\t<key>CFBundleIconFile</key>\n"@
                + "\t\t<string>"@ + i@ + "</string>\n"@);
        }
    }
    s
}

/// Building the descriptor is a function of its arguments: two builds from the
/// same template and the same icon name (or none) give the same text.
pub proof fn lemma_plist_deterministic(
    template: Seq<char>,
    icon: Option<Seq<char>>,
    first: Seq<char>,
    second: Seq<char>,
)
    requires
        first == plist_text(template, icon),
        second == plist_text(template, icon),
    ensures
        first == second,
{
}

} // verus!
