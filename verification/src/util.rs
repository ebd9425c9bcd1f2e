//! Page snippets handed to the control outside any navigation.

use vstd::prelude::*;
use vstd::string::StringExecFns;

verus! {

/// The markup of the blank page with the given background color.
pub open spec fn empty_page(color: Seq<char>) -> Seq<char> {
    "<html>\n    <style>\n        body {\n            width: 100%;\n            height: 100%;\n            background: "@
        + color
        + ";\n            overflow: hidden;\n        }\n    </style>\n    <body>\n    </body>\n</html>"@
}

/// Builds the blank page the control shows before the first navigation: a
/// full-viewport body in one solid color, nothing else.
pub fn empty(color: &str) -> (r: String)
    ensures
        r@ == empty_page(color@),
{
    let mut s = String::from_str(
        "<html>\n    <style>\n        body {\n            width: 100%;\n            height: 100%;\n            background: ",
    );
    s.append(color);
    s.append(
        ";\n            overflow: hidden;\n        }\n    </style>\n    <body>\n    </body>\n</html>",
    );
    s
}

} // verus!
