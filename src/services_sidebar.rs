use vstd::prelude::*;

verus! {

/// A storage service as the service picker shows it.
#[derive(Debug, PartialEq, Eq)]
pub struct Service {
    pub name: String,
    pub available: bool,
}

impl Clone for Service {
    fn clone(&self) -> (r: Service)
        ensures
            r == *self,
    {
        Service { name: self.name.clone(), available: self.available }
    }
}

/// The service picker: the services that are available, and the one selected.
#[derive(Debug)]
pub struct ServicesSidebarModel {
    pub services: Vec<Service>,
    pub selected: Option<usize>,
}

/// A command for the service picker.
#[derive(Debug)]
pub enum ServicesSidebarInput {
    ServiceSelected(usize, Service),
    ReloadSidebar(Service),
}

/// What the service picker reports to its owner.
#[derive(Debug)]
pub enum ServicesSidebarOutput {
    ServiceSelected(Service),
    ServiceDisabled(Service),
}

/// The services of `all` that are available, in their order.
pub open spec fn available_of(all: Seq<Service>) -> Seq<Service> {
    all.filter(|s: Service| s.available)
}

/// The services of `all` that are available, in their order.
fn available_services(all: &Vec<Service>) -> (r: Vec<Service>)
    ensures
        r@ == available_of(all@),
{
    let mut out: Vec<Service> = Vec::new();
    let mut i: usize = 0;
    while i < all.len()
        invariant
            i <= all@.len(),
            out@ == available_of(all@.subrange(0, i as int)),
        decreases all@.len() - i,
    {
        proof {
            let next = all@.subrange(0, i + 1);
            reveal(Seq::filter);
            assert(next.drop_last() =~= all@.subrange(0, i as int));
            assert(next.last() == all@[i as int]);
            assert(available_of(next) == if all@[i as int].available {
                available_of(all@.subrange(0, i as int)).push(all@[i as int])
            } else {
                available_of(all@.subrange(0, i as int))
            });
        }
        if all[i].available {
            out.push(all[i].clone());
        }
        i = i + 1;
    }
    proof {
        reveal(Seq::filter);
        assert(all@.subrange(0, all@.len() as int) =~= all@);
    }
    out
}

impl ServicesSidebarModel {
    /// A picker over the available services of `all`, with the first one selected.
    pub fn init(all: &Vec<Service>) -> (r: ServicesSidebarModel)
        ensures
            r.services@ == available_of(all@),
            r.selected == if r.services@.len() > 0 {
                Some(0usize)
            } else {
                None
            },
    {
        let services = available_services(all);
        let selected = if services.len() > 0 {
            Some(0)
        } else {
            None
        };
        ServicesSidebarModel { services, selected }
    }

    /// Handles one command; `all` is every service there is, available or not.
    ///
    /// Reloading shows the services of `all` that are available now, selects none, and
    /// reports the service that was turned off. Selecting marks a shown position and
    /// reports the service.
    pub fn update(&mut self, message: ServicesSidebarInput, all: &Vec<Service>) -> (r:
        ServicesSidebarOutput)
        ensures
            match message {
                ServicesSidebarInput::ReloadSidebar(s) => {
                    &&& final(self).services@ == available_of(all@)
                    &&& final(self).selected.is_none()
                    &&& r == ServicesSidebarOutput::ServiceDisabled(s)
                },
                ServicesSidebarInput::ServiceSelected(i, s) => {
                    &&& final(self).services == old(self).services
                    &&& final(self).selected == if i < old(self).services@.len() {
                        Some(i)
                    } else {
                        old(self).selected
                    }
                    &&& r == ServicesSidebarOutput::ServiceSelected(s)
                },
            },
    {
        match message {
            ServicesSidebarInput::ReloadSidebar(s) => {
                self.services = available_services(all);
                self.selected = None;
                ServicesSidebarOutput::ServiceDisabled(s)
            },
            ServicesSidebarInput::ServiceSelected(i, s) => {
                if i < self.services.len() {
                    self.selected = Some(i);
                }
                ServicesSidebarOutput::ServiceSelected(s)
            },
        }
    }
}

} // verus!
