//! Things on a screen that can say how they are drawn.

use vstd::prelude::*;
use vstd::string::*;

verus! {

/// Something that can be drawn in a colour.
pub trait Drawable {
    /// The line that says how this is drawn.
    spec fn drawing(&self) -> Seq<char>;

    /// This thing in another colour.
    spec fn recolored(&self, color: Seq<char>) -> Seq<char>;

    /// The line that says how this is drawn.
    fn draw(&self) -> (line: String)
        ensures
            line@ == self.drawing(),
    ;

    /// Changes the colour and nothing else.
    fn set_color(&mut self, color: &str)
        ensures
            final(self).drawing() == old(self).recolored(color@),
    ;
}

/// A button with a label.
#[derive(Debug, Clone)]
pub struct Button {
    pub text: String,
    pub color: String,
}

/// An image from a file.
#[derive(Debug, Clone)]
pub struct Image {
    pub path: String,
    pub color: String,
}

/// The line for a button.
pub open spec fn button_line(text: Seq<char>, color: Seq<char>) -> Seq<char> {
    "Drawing button: "@ + text + " ("@ + color + ")"@
}

/// The line for an image.
pub open spec fn image_line(path: Seq<char>, color: Seq<char>) -> Seq<char> {
    "Drawing image: "@ + path + " ("@ + color + ")"@
}

impl Drawable for Button {
    open spec fn drawing(&self) -> Seq<char> {
        button_line(self.text@, self.color@)
    }

    open spec fn recolored(&self, color: Seq<char>) -> Seq<char> {
        button_line(self.text@, color)
    }

    fn draw(&self) -> (line: String) {
        let mut line: String = "Drawing button: ".to_owned();
        line.append(self.text.as_str());
        line.append(" (");
        line.append(self.color.as_str());
        line.append(")");
        line
    }

    fn set_color(&mut self, color: &str)
        ensures
            final(self).color@ == color@,
            final(self).text == old(self).text,
    {
        self.color = color.to_owned();
    }
}

impl Drawable for Image {
    open spec fn drawing(&self) -> Seq<char> {
        image_line(self.path@, self.color@)
    }

    open spec fn recolored(&self, color: Seq<char>) -> Seq<char> {
        image_line(self.path@, color)
    }

    fn draw(&self) -> (line: String) {
        let mut line: String = "Drawing image: ".to_owned();
        line.append(self.path.as_str());
        line.append(" (");
        line.append(self.color.as_str());
        line.append(")");
        line
    }

    fn set_color(&mut self, color: &str)
        ensures
            final(self).color@ == color@,
            final(self).path == old(self).path,
    {
        self.color = color.to_owned();
    }
}

} // verus!
