use vstd::prelude::*;

use crate::kitty::{Kitty, KittyAction, KittyCompression, KittyDelete, KittyMedium};
use vstd::string::StringExecFns;

verus! {

/// The characters of the decimal digit `d`.
pub open spec fn digit_text(d: nat) -> Seq<char> {
    if d == 0 {
        "0"@
    } else if d == 1 {
        "1"@
    } else if d == 2 {
        "2"@
    } else if d == 3 {
        "3"@
    } else if d == 4 {
        "4"@
    } else if d == 5 {
        "5"@
    } else if d == 6 {
        "6"@
    } else if d == 7 {
        "7"@
    } else if d == 8 {
        "8"@
    } else {
        "9"@
    }
}

/// The decimal rendering of `n`, without leading zeros.
pub open spec fn decimal_text(n: nat) -> Seq<char>
    decreases n,
{
    if n < 10 {
        digit_text(n)
    } else {
        decimal_text(n / 10) + digit_text(n % 10)
    }
}

/// The rendering of a flag.
pub open spec fn bool_text(b: bool) -> Seq<char> {
    if b {
        "true"@
    } else {
        "false"@
    }
}

/// The name under which an action is rendered.
pub open spec fn action_text(a: KittyAction) -> Seq<char> {
    match a {
        KittyAction::Immediate => "Immediate"@,
        KittyAction::Delete => "Delete"@,
        KittyAction::Load => "Load"@,
        KittyAction::Query => "Query"@,
        KittyAction::Store => "Store"@,
    }
}

/// The name under which a medium is rendered.
pub open spec fn medium_text(m: KittyMedium) -> Seq<char> {
    match m {
        KittyMedium::Direct => "Direct"@,
        KittyMedium::File => "File"@,
        KittyMedium::Temporary => "Temporary File"@,
        KittyMedium::SharedMemory => "Shared Memory"@,
    }
}

/// The name under which a compression is rendered.
pub open spec fn compression_text(o: KittyCompression) -> Seq<char> {
    match o {
        KittyCompression::Uncompressed => "None"@,
        KittyCompression::ZLib => "ZLib"@,
    }
}

/// The name under which a delete scope is rendered.
pub open spec fn delete_text(d: KittyDelete) -> Seq<char> {
    match d {
        KittyDelete::All => "All"@,
        KittyDelete::ById => "By ID"@,
        KittyDelete::IntersectCursor => "Intersect Cursor"@,
        KittyDelete::IntersectCell2D => "Intersect Cell"@,
        KittyDelete::IntersectCell3D => "Intersect Cell and Z-Index"@,
        KittyDelete::IntersectColumn => "Intersect Column"@,
        KittyDelete::IntersectRow => "Intersect Row"@,
        KittyDelete::ByZIndex => "By Z-Index"@,
    }
}

/// The rendering of a whole command: every field, in declaration order, as `name: value`
/// separated by `, `.
pub open spec fn display_of(k: Kitty) -> Seq<char> {
    "action: "@ + action_text(k.action) + ", format: "@ + decimal_text(k.format as nat)
        + ", medium: "@ + medium_text(k.medium) + ", width: "@ + decimal_text(k.width as nat)
        + ", height: "@ + decimal_text(k.height as nat) + ", size: "@ + decimal_text(
        k.size as nat,
    ) + ", offset: "@ + decimal_text(k.offset as nat) + ", id: "@ + decimal_text(k.id as nat)
        + ", compression: "@ + compression_text(k.compression) + ", chunked: "@ + bool_text(
        k.chunked,
    ) + ", x_pos: "@ + decimal_text(k.x_pos as nat) + ", y_pos: "@ + decimal_text(
        k.y_pos as nat,
    ) + ", x_size: "@ + decimal_text(k.x_size as nat) + ", y_size: "@ + decimal_text(
        k.y_size as nat,
    ) + ", x_offset: "@ + decimal_text(k.x_offset as nat) + ", y_offset: "@ + decimal_text(
        k.y_offset as nat,
    ) + ", columns: "@ + decimal_text(k.columns as nat) + ", rows: "@ + decimal_text(
        k.rows as nat,
    ) + ", z_index: "@ + decimal_text(k.z_index as nat) + ", delete: "@ + delete_text(k.delete)
        + ", free: "@ + bool_text(k.free)
}

fn digit_str(d: usize) -> (r: &'static str)
    requires
        d < 10,
    ensures
        r@ == digit_text(d as nat),
{
    match d {
        0 => "0",
        1 => "1",
        2 => "2",
        3 => "3",
        4 => "4",
        5 => "5",
        6 => "6",
        7 => "7",
        8 => "8",
        _ => "9",
    }
}

/// Appends the decimal rendering of `n`.
fn append_decimal(s: &mut String, n: usize)
    ensures
        final(s)@ == old(s)@ + decimal_text(n as nat),
    decreases n,
{
    if n >= 10 {
        append_decimal(s, n / 10);
        s.append(digit_str(n % 10));
        assert(decimal_text(n as nat) == decimal_text((n / 10) as nat) + digit_text((n % 10) as nat));
    } else {
        s.append(digit_str(n));
    }
}

fn bool_str(b: bool) -> (r: &'static str)
    ensures
        r@ == bool_text(b),
{
    if b {
        "true"
    } else {
        "false"
    }
}

impl KittyAction {
    /// The name under which this action is rendered.
    pub fn name(&self) -> (r: &'static str)
        ensures
            r@ == action_text(*self),
    {
        match self {
            KittyAction::Immediate => "Immediate",
            KittyAction::Delete => "Delete",
            KittyAction::Load => "Load",
            KittyAction::Query => "Query",
            KittyAction::Store => "Store",
        }
    }
}

impl KittyMedium {
    /// The name under which this medium is rendered.
    pub fn name(&self) -> (r: &'static str)
        ensures
            r@ == medium_text(*self),
    {
        match self {
            KittyMedium::Direct => "Direct",
            KittyMedium::File => "File",
            KittyMedium::Temporary => "Temporary File",
            KittyMedium::SharedMemory => "Shared Memory",
        }
    }
}

impl KittyCompression {
    /// The name under which this compression is rendered.
    pub fn name(&self) -> (r: &'static str)
        ensures
            r@ == compression_text(*self),
    {
        match self {
            KittyCompression::Uncompressed => "None",
            KittyCompression::ZLib => "ZLib",
        }
    }
}

impl KittyDelete {
    /// The name under which this delete scope is rendered.
    pub fn name(&self) -> (r: &'static str)
        ensures
            r@ == delete_text(*self),
    {
        match self {
            KittyDelete::All => "All",
            KittyDelete::ById => "By ID",
            KittyDelete::IntersectCursor => "Intersect Cursor",
            KittyDelete::IntersectCell2D => "Intersect Cell",
            KittyDelete::IntersectCell3D => "Intersect Cell and Z-Index",
            KittyDelete::IntersectColumn => "Intersect Column",
            KittyDelete::IntersectRow => "Intersect Row",
            KittyDelete::ByZIndex => "By Z-Index",
        }
    }
}

impl Kitty {
    /// A human-readable rendering of every field, for logging and debugging.
    pub fn to_display_string(&self) -> (r: String)
        ensures
            r@ == display_of(*self),
    {
        let mut s = String::new();
        s.append("action: ");
        s.append(self.action.name());
        s.append(", format: ");
        append_decimal(&mut s, self.format);
        s.append(", medium: ");
        s.append(self.medium.name());
        s.append(", width: ");
        append_decimal(&mut s, self.width);
        s.append(", height: ");
        append_decimal(&mut s, self.height);
        s.append(", size: ");
        append_decimal(&mut s, self.size);
        s.append(", offset: ");
        append_decimal(&mut s, self.offset);
        s.append(", id: ");
        append_decimal(&mut s, self.id);
        s.append(", compression: ");
        s.append(self.compression.name());
        s.append(", chunked: ");
        s.append(bool_str(self.chunked));
        s.append(", x_pos: ");
        append_decimal(&mut s, self.x_pos);
        s.append(", y_pos: ");
        append_decimal(&mut s, self.y_pos);
        s.append(", x_size: ");
        append_decimal(&mut s, self.x_size);
        s.append(", y_size: ");
        append_decimal(&mut s, self.y_size);
        s.append(", x_offset: ");
        append_decimal(&mut s, self.x_offset);
        s.append(", y_offset: ");
        append_decimal(&mut s, self.y_offset);
        s.append(", columns: ");
        append_decimal(&mut s, self.columns);
        s.append(", rows: ");
        append_decimal(&mut s, self.rows);
        s.append(", z_index: ");
        append_decimal(&mut s, self.z_index);
        s.append(", delete: ");
        s.append(self.delete.name());
        s.append(", free: ");
        s.append(bool_str(self.free));
        assert(s@ =~= display_of(*self));
        s
    }
}

} // verus!
