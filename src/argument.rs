//! The task-manager client's arguments: a command, the resource, and the
//! paging and ordering of listings.
use vstd::prelude::*;

use crate::data::Pageable;

verus! {

#[derive(Debug, Clone, Copy, PartialEq, Eq, PartialOrd, Ord, Structural)]
pub enum Command {
    Create,
    Delete,
    Get,
    Login,
}

#[derive(Debug, Clone, Copy, PartialEq, Eq, PartialOrd, Ord, Structural)]
pub enum Order {
    Id,
    Title,
}

#[derive(Debug, Clone, Copy, PartialEq, Eq, PartialOrd, Ord, Structural)]
pub enum Direction {
    Asc,
    Desc,
}

#[derive(Debug, Clone, Copy, PartialEq, Eq, PartialOrd, Ord, Structural)]
pub enum Resource {
    Task,
    Tasks,
    Project,
    Projects,
    User,
    Users,
}

#[derive(Debug, Clone, Copy, PartialEq, Eq, Structural)]
pub struct Cli {
    pub command: Command,
    pub resource: Option<Resource>,
    pub offset: Option<usize>,
    pub limit: Option<usize>,
    pub order: Option<Order>,
    pub direction: Option<Direction>,
}

pub open spec fn order_column(o: Order) -> Seq<char> {
    match o {
        Order::Id => "id"@,
        Order::Title => "title"@,
    }
}

pub open spec fn direction_word(d: Direction) -> Seq<char> {
    match d {
        Direction::Asc => "ASC"@,
        Direction::Desc => "DESC"@,
    }
}

impl Order {
    /// The column a listing is ordered by.
    pub fn as_str(&self) -> (r: &'static str)
        ensures
            r@ == order_column(*self),
    {
        match self {
            Order::Id => "id",
            Order::Title => "title",
        }
    }
}

impl Direction {
    /// The word of the ordering direction.
    pub fn as_str(&self) -> (r: &'static str)
        ensures
            r@ == direction_word(*self),
    {
        match self {
            Direction::Asc => "ASC",
            Direction::Desc => "DESC",
        }
    }
}

impl Cli {
    /// The paging and ordering that a listing request carries.
    pub fn pageable(&self) -> (p: Pageable)
        ensures
            p.limit == self.limit,
            p.offset == self.offset,
            match self.order {
                Some(o) => p.order_by matches Some(s) && s@ == order_column(o),
                None => p.order_by is None,
            },
            match self.direction {
                Some(d) => p.direction matches Some(s) && s@ == direction_word(d),
                None => p.direction is None,
            },
    {
        let order_by = match self.order {
            Some(o) => Some(o.as_str().to_owned()),
            None => None,
        };
        let direction = match self.direction {
            Some(d) => Some(d.as_str().to_owned()),
            None => None,
        };
        Pageable { limit: self.limit, offset: self.offset, order_by, direction }
    }
}

} // verus!
