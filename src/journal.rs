//! The station log: a header, a title, and the entries in the order they
//! were written.
use vstd::prelude::*;

verus! {

pub struct Journal {
    header: String,
    title: String,
    log: Vec<String>,
}

impl View for Journal {
    type V = (Seq<char>, Seq<char>, Seq<Seq<char>>);

    closed spec fn view(&self) -> (Seq<char>, Seq<char>, Seq<Seq<char>>) {
        (self.header@, self.title@, self.log@.map_values(|e: String| e@))
    }
}

impl Journal {
    pub fn new(header: String, title: String) -> (r: Self)
        ensures
            r@ == (header@, title@, Seq::<Seq<char>>::empty()),
    {
        let r = Journal { header, title, log: Vec::new() };
        proof {
            assert(r@.2 =~= Seq::<Seq<char>>::empty());
        }
        r
    }

    /// Appends `text` to the log.
    pub fn add_entry(&mut self, text: String)
        ensures
            final(self)@ == (old(self)@.0, old(self)@.1, old(self)@.2.push(text@)),
    {
        self.log.push(text);
        proof {
            assert(self@.2 =~= old(self)@.2.push(text@));
        }
    }

    pub fn header(&self) -> (r: &String)
        ensures
            r@ == self@.0,
    {
        &self.header
    }

    pub fn title(&self) -> (r: &String)
        ensures
            r@ == self@.1,
    {
        &self.title
    }

    /// The entries, oldest first.
    pub fn entries(&self) -> (r: &Vec<String>)
        ensures
            r@.map_values(|e: String| e@) == self@.2,
    {
        &self.log
    }
}

} // verus!
