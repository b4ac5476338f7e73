use vstd::prelude::*;

verus! {

/// One decoded graphics command.
#[derive(Debug, Clone, Copy, PartialEq, Eq, Structural)]
pub struct Kitty {
    /// The overall action this graphics command is performing (`a` key, default is `t`).
    pub action: KittyAction,
    /// The format in which the image data is sent (`f` key, default is `32`).
    /// Values can be `24` for RGB, `32` for RGBA and `100` for PNG.
    pub format: usize,
    /// The transmission medium used (`t` key, default is `d`).
    pub medium: KittyMedium,
    /// The width of the image being sent (`s` key, default is `0`).
    pub width: usize,
    /// The height of the image being sent (`v` key, default is `0`).
    pub height: usize,
    /// The size of data to read from a file (`S` key, default is `0`).
    pub size: usize,
    /// The offset from which to read data from a file (`O` key, default is `0`).
    pub offset: usize,
    /// The image id (`i` key, default is `0`, meaning no id).
    /// An explicit id is a positive integer up to 4294967295.
    pub id: usize,
    /// The type of data compression (`o` key, default is none).
    pub compression: KittyCompression,
    /// Whether more chunked data follows (`m` key, `0` or `1`, default is `0`).
    pub chunked: bool,
    /// The left edge (in pixels) of the image area to display (`x` key, default is `0`).
    pub x_pos: usize,
    /// The top edge (in pixels) of the image area to display (`y` key, default is `0`).
    pub y_pos: usize,
    /// The width (in pixels) of the image area to display (`w` key, default is `0`).
    /// Zero means the entire width.
    pub x_size: usize,
    /// The height (in pixels) of the image area to display (`h` key, default is `0`).
    /// Zero means the entire height.
    pub y_size: usize,
    /// The x-offset within the first cell at which to start displaying the image (`X` key, default is `0`).
    pub x_offset: usize,
    /// The y-offset within the first cell at which to start displaying the image (`Y` key, default is `0`).
    pub y_offset: usize,
    /// The number of columns to display the image over (`c` key, default is `0`).
    pub columns: usize,
    /// The number of rows to display the image over (`r` key, default is `0`).
    pub rows: usize,
    /// The magnitude of the z-index stacking order of the image (`z` key, default is `0`).
    pub z_index: usize,
    /// What to delete (`d` key, default is `a`).
    /// Valid values are `a`/`A`, `c`/`C`, `i`/`I`, `p`/`P`, `q`/`Q`, `x`/`X`, `y`/`Y` and `z`/`Z`.
    pub delete: KittyDelete,
    /// Whether deleting also frees the stored image data: set by an upper-case `d` value.
    pub free: bool,
}

/// The command with every field at its protocol default.
pub open spec fn default_kitty() -> Kitty {
    Kitty {
        action: KittyAction::Immediate,
        format: 32,
        medium: KittyMedium::Direct,
        width: 0,
        height: 0,
        size: 0,
        offset: 0,
        id: 0,
        compression: KittyCompression::Uncompressed,
        chunked: false,
        x_pos: 0,
        y_pos: 0,
        x_size: 0,
        y_size: 0,
        x_offset: 0,
        y_offset: 0,
        columns: 0,
        rows: 0,
        z_index: 0,
        delete: KittyDelete::All,
        free: false,
    }
}

/// Constructor for `Kitty`: every field at its default.
#[allow(non_snake_case)]
pub fn Kitty() -> (k: Kitty)
    ensures
        k == default_kitty(),
{
    Kitty {
        action: KittyAction::Immediate,
        format: 32,
        medium: KittyMedium::Direct,
        width: 0,
        height: 0,
        size: 0,
        offset: 0,
        id: 0,
        compression: KittyCompression::Uncompressed,
        chunked: false,
        x_pos: 0,
        y_pos: 0,
        x_size: 0,
        y_size: 0,
        x_offset: 0,
        y_offset: 0,
        columns: 0,
        rows: 0,
        z_index: 0,
        delete: KittyDelete::All,
        free: false,
    }
}

impl Default for Kitty {
    fn default() -> (k: Kitty)
        ensures
            k == default_kitty(),
    {
        Kitty()
    }
}

/// The action of a `Kitty` command (`a` key).
#[derive(Debug, Clone, Copy, PartialEq, Eq, Structural)]
pub enum KittyAction {
    /// Draw the image immediately on screen (`a=t`, default).
    Immediate,
    /// Delete no, one or multiple images (`a=d`).
    Delete,
    /// Draw a stored image on screen (`a=p`).
    Load,
    /// Ask for various data (`a=q`).
    Query,
    /// Store an image, which can later be drawn with a load (`a=T`).
    Store,
}

/// The action that an `a` value letter names.
pub open spec fn action_of(c: char) -> Option<KittyAction> {
    match c {
        't' => Some(KittyAction::Immediate),
        'd' => Some(KittyAction::Delete),
        'p' => Some(KittyAction::Load),
        'q' => Some(KittyAction::Query),
        'T' => Some(KittyAction::Store),
        _ => None,
    }
}

impl KittyAction {
    /// Looks up the action that a value letter names.
    pub fn from_code(c: char) -> (r: Option<KittyAction>)
        ensures
            r == action_of(c),
    {
        match c {
            't' => Some(KittyAction::Immediate),
            'd' => Some(KittyAction::Delete),
            'p' => Some(KittyAction::Load),
            'q' => Some(KittyAction::Query),
            'T' => Some(KittyAction::Store),
            _ => None,
        }
    }
}

/// Compression used for the stream (`o` key).
/// Only zlib based deflate compression is supported, specified by `o=z`.
#[derive(Debug, Clone, Copy, PartialEq, Eq, Structural)]
pub enum KittyCompression {
    /// Uncompressed stream, which might still be a compressed PNG (default).
    Uncompressed,
    /// Compressed with zlib (`o=z`).
    ZLib,
}

/// The compression that an `o` value letter names.
pub open spec fn compression_of(c: char) -> Option<KittyCompression> {
    match c {
        'z' => Some(KittyCompression::ZLib),
        _ => None,
    }
}

impl KittyCompression {
    /// Looks up the compression that a value letter names.
    pub fn from_code(c: char) -> (r: Option<KittyCompression>)
        ensures
            r == compression_of(c),
    {
        match c {
            'z' => Some(KittyCompression::ZLib),
            _ => None,
        }
    }
}

/// Which images to delete (`d` key), when the action is a delete (`a=d`).
/// Without a `d` key, all images visible on screen are deleted.
/// A lower-case letter only removes placements from the screen; the upper-case letter
/// of the same scope also frees the stored image data.
#[derive(Debug, Clone, Copy, PartialEq, Eq, Structural)]
pub enum KittyDelete {
    /// Delete all images visible on screen (`d=a`/`d=A`, default).
    All,
    /// Delete all images with the id given by the `i` key (`d=i`/`d=I`).
    ById,
    /// Delete all images that intersect the current cursor position (`d=c`/`d=C`).
    IntersectCursor,
    /// Delete all images that intersect the cell given by the `x` and `y` keys (`d=p`/`d=P`).
    IntersectCell2D,
    /// Delete all images that intersect the cell given by the `x` and `y` keys
    /// and have the z-index given by the `z` key (`d=q`/`d=Q`).
    IntersectCell3D,
    /// Delete all images that intersect the column given by the `x` key (`d=x`/`d=X`).
    IntersectColumn,
    /// Delete all images that intersect the row given by the `y` key (`d=y`/`d=Y`).
    IntersectRow,
    /// Delete all images that have the z-index given by the `z` key (`d=z`/`d=Z`).
    ByZIndex,
}

/// Whether `c` is an upper-case ASCII letter.
pub open spec fn is_upper(c: char) -> bool {
    'A' <= c <= 'Z'
}

/// The lower-case letter of an upper-case ASCII letter; any other character unchanged.
pub open spec fn fold_case(c: char) -> char {
    match c {
        'A' => 'a',
        'C' => 'c',
        'I' => 'i',
        'P' => 'p',
        'Q' => 'q',
        'X' => 'x',
        'Y' => 'y',
        'Z' => 'z',
        _ => c,
    }
}

/// The scope that a lower-case `d` value letter names.
pub open spec fn scope_of(c: char) -> Option<KittyDelete> {
    match c {
        'a' => Some(KittyDelete::All),
        'i' => Some(KittyDelete::ById),
        'c' => Some(KittyDelete::IntersectCursor),
        'p' => Some(KittyDelete::IntersectCell2D),
        'q' => Some(KittyDelete::IntersectCell3D),
        'x' => Some(KittyDelete::IntersectColumn),
        'y' => Some(KittyDelete::IntersectRow),
        'z' => Some(KittyDelete::ByZIndex),
        _ => None,
    }
}

/// The scope and the free flag that a `d` value letter names: the scope of the letter
/// folded to lower case, and whether the letter was upper case.
pub open spec fn delete_of(c: char) -> Option<(KittyDelete, bool)> {
    match scope_of(fold_case(c)) {
        Some(d) => Some((d, is_upper(c))),
        None => None,
    }
}

impl KittyDelete {
    /// Looks up the scope that a lower-case value letter names.
    pub fn from_scope_code(c: char) -> (r: Option<KittyDelete>)
        ensures
            r == scope_of(c),
    {
        match c {
            'a' => Some(KittyDelete::All),
            'i' => Some(KittyDelete::ById),
            'c' => Some(KittyDelete::IntersectCursor),
            'p' => Some(KittyDelete::IntersectCell2D),
            'q' => Some(KittyDelete::IntersectCell3D),
            'x' => Some(KittyDelete::IntersectColumn),
            'y' => Some(KittyDelete::IntersectRow),
            'z' => Some(KittyDelete::ByZIndex),
            _ => None,
        }
    }

    /// Looks up the scope and the free flag that a value letter names.
    pub fn from_code(c: char) -> (r: Option<(KittyDelete, bool)>)
        ensures
            r == delete_of(c),
    {
        let free = 'A' <= c && c <= 'Z';
        let folded = match c {
            'A' => 'a',
            'C' => 'c',
            'I' => 'i',
            'P' => 'p',
            'Q' => 'q',
            'X' => 'x',
            'Y' => 'y',
            'Z' => 'z',
            _ => c,
        };
        match KittyDelete::from_scope_code(folded) {
            Some(d) => Some((d, free)),
            None => None,
        }
    }
}

/// The transmission medium (`t` key).
#[derive(Debug, Clone, Copy, PartialEq, Eq, Structural)]
pub enum KittyMedium {
    /// The data is transmitted within the escape code itself (`t=d`, default).
    Direct,
    /// A simple file (`t=f`).
    File,
    /// A temporary file, which the terminal emulator deletes after reading the pixel data (`t=t`).
    /// For security reasons the terminal emulator should only delete the file if it is in a
    /// known temporary directory, such as `/tmp`, `/dev/shm` or `TMPDIR`.
    Temporary,
    /// A POSIX shared memory object, which the terminal emulator deletes after reading the
    /// pixel data (`t=s`).
    SharedMemory,
}

/// The medium that a `t` value letter names.
pub open spec fn medium_of(c: char) -> Option<KittyMedium> {
    match c {
        'd' => Some(KittyMedium::Direct),
        'f' => Some(KittyMedium::File),
        't' => Some(KittyMedium::Temporary),
        's' => Some(KittyMedium::SharedMemory),
        _ => None,
    }
}

impl KittyMedium {
    /// Looks up the medium that a value letter names.
    pub fn from_code(c: char) -> (r: Option<KittyMedium>)
        ensures
            r == medium_of(c),
    {
        match c {
            'd' => Some(KittyMedium::Direct),
            'f' => Some(KittyMedium::File),
            't' => Some(KittyMedium::Temporary),
            's' => Some(KittyMedium::SharedMemory),
            _ => None,
        }
    }
}

} // verus!
