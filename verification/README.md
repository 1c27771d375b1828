# hcloud-csi-rwx

Read-write-many volumes for Hetzner Cloud: for each volume one share-manager pod mounts a block
volume and exports it via NFSv4, a CSI driver provisions and mounts it, a failover controller
keeps the share-manager alive, and a recovery backend keeps NFSv4 client state across failovers.

## Layout

- `src/` is the library: what the four programs decide about volumes, pods, mounts and client
  records, verified with Verus.
  - `provision` — configuration, names, manifests and the choice of a node, shared by all
  - `csi`, `publish` — creating and deleting volumes, mounting and unmounting them on a node
  - `controller` — one pass over a claim: failover, detaching, evicting, recreating
  - `recovery` — the records of NFSv4 clients
  - `sharemanager`, `block`, `nfs`, `api`, `cli` — the share-manager
  - `exec` — commands and processes, with a scripted double
  - `cluster`, `json`, `text`, `textmap`, `failure` — what the others are made of
- `app/` is the program around it: which of the four runs, command line, HTTP and gRPC servers
  with their routes, the Kubernetes client, processes and files. It is not verified.
- `tests/` runs the library.

## How the pieces meet

What waits for the outside is a machine: it names one request or action at a time, and decides on
each reply what comes next. `app/` carries the requests out. The contract of a machine is its
`next` function (or `turn`, for the share-manager), and the proof functions named `law_…` state
what holds of it: that a pass over a claim ends, that no share-manager is recreated before its
block volume is free, that the node it goes to is ready and unoccupied, that clients written to a
record are read back from it, that values from outside cannot change the structure of the server's
configuration, that the server is stopped before its volume is unmounted, that a node mounts the
endpoint that was told in the same call and no other.
